use masonry::flex::{CrossAxisAlignment, MainAxisAlignment};
use masonry::label::Label;
use masonry::list::is_valid_gap;
use masonry::stack::Stack;
use masonry::widget::{Axis, Request, WidgetId, WidgetPod, F64};

fn f(v: f64) -> F64 {
    F64(v.to_bits())
}

#[test]
fn get_stack_child() {
    let mut stack = Stack::column()
        .with_child(WidgetPod::new(Label::new("hello")), None)
        .with_child(WidgetPod::new(Label::new("world")), None);
    assert_eq!(Stack::child_mut(&mut stack, 1).text, "world");
    assert_eq!(stack.len(), 2);
    assert!(stack.requests.is_empty());
}

#[test]
fn stack_defaults() {
    let row: Stack<Label> = Stack::row();
    assert_eq!(row.direction, Axis::Horizontal);
    assert_eq!(row.cross_alignment, CrossAxisAlignment::Center);
    assert_eq!(row.main_alignment, MainAxisAlignment::Start);
    assert_eq!(row.gap, None);
    assert!(row.is_empty());
    assert_eq!(row.gap_count(), 0);
    let column: Stack<Label> = Stack::column();
    assert_eq!(column.direction, Axis::Vertical);
}

#[test]
fn stack_gap_is_set() {
    let stack: Stack<Label> = Stack::row().with_gap(f(4.0));
    assert_eq!(stack.gap, Some(f(4.0)));
    let mut stack: Stack<Label> = Stack::row().with_gap(f(-0.0));
    assert_eq!(stack.gap, Some(f(-0.0)));
    Stack::set_gap(&mut stack, f(2.5));
    assert_eq!(stack.gap, Some(f(2.5)));
    assert_eq!(stack.requests, vec![Request::Layout]);
    assert!(!is_valid_gap(f(-1.0)));
    assert!(!is_valid_gap(f(f64::NAN)));
    assert!(!is_valid_gap(f(f64::INFINITY)));
    assert!(is_valid_gap(f(0.0)));
}

#[test]
fn stack_children_management() {
    let mut stack = Stack::row().cross_axis_alignment(CrossAxisAlignment::End);
    Stack::add_child(&mut stack, WidgetPod::with_id(Label::new("a"), WidgetId(1)), None);
    Stack::add_child(&mut stack, WidgetPod::with_id(Label::new("c"), WidgetId(3)), Some(CrossAxisAlignment::Start));
    Stack::insert_child(&mut stack, 1, WidgetPod::with_id(Label::new("b"), WidgetId(2)), None);
    assert_eq!(stack.children_ids(), vec![Some(WidgetId(1)), Some(WidgetId(2)), Some(WidgetId(3))]);
    assert_eq!(stack.gap_count(), 2);
    assert_eq!(stack.child_alignment(0), CrossAxisAlignment::End);
    assert_eq!(stack.child_alignment(2), CrossAxisAlignment::Start);
    Stack::update_child_alignment(&mut stack, 0, Some(CrossAxisAlignment::Baseline));
    assert_eq!(stack.child_alignment(0), CrossAxisAlignment::Baseline);
    Stack::remove_child(&mut stack, 1);
    assert_eq!(stack.children_ids(), vec![Some(WidgetId(1)), Some(WidgetId(3))]);
    assert_eq!(
        stack.requests,
        vec![
            Request::ChildrenChanged,
            Request::ChildrenChanged,
            Request::ChildrenChanged,
            Request::Layout,
            Request::RemoveChild,
            Request::Layout,
        ]
    );
    stack.requests.clear();
    Stack::clear(&mut stack);
    assert!(stack.is_empty());
    assert_eq!(stack.requests, vec![Request::Layout, Request::RemoveChild, Request::RemoveChild]);
    stack.requests.clear();
    Stack::clear(&mut stack);
    assert!(stack.requests.is_empty());
}

#[test]
fn stack_settings_request_layout() {
    let mut stack: Stack<Label> = Stack::row();
    Stack::set_direction(&mut stack, Axis::Vertical);
    Stack::set_cross_axis_alignment(&mut stack, CrossAxisAlignment::Stretch);
    Stack::set_main_axis_alignment(&mut stack, MainAxisAlignment::SpaceEvenly);
    assert_eq!(stack.direction, Axis::Vertical);
    assert_eq!(stack.cross_alignment, CrossAxisAlignment::Stretch);
    assert_eq!(stack.main_alignment, MainAxisAlignment::SpaceEvenly);
    assert_eq!(stack.requests, vec![Request::Layout, Request::Layout, Request::Layout]);
}

#[test]
fn stack_remove_undoes_insert() {
    let mut stack = Stack::row()
        .with_child(WidgetPod::with_id(Label::new("a"), WidgetId(1)), None)
        .with_child(WidgetPod::with_id(Label::new("b"), WidgetId(2)), Some(CrossAxisAlignment::End));
    let before = stack.children_ids();
    Stack::insert_child(&mut stack, 1, WidgetPod::with_id(Label::new("x"), WidgetId(9)), None);
    Stack::remove_child(&mut stack, 1);
    assert_eq!(stack.children_ids(), before);
    assert_eq!(stack.child_alignment(1), CrossAxisAlignment::End);
}

fn three_labels(stack: Stack<Label>) -> Stack<Label> {
    stack
        .with_child(WidgetPod::new(Label::new("hello")), None)
        .with_child(WidgetPod::new(Label::new("world")), None)
        .with_child(WidgetPod::new(Label::new("foobar")), Some(CrossAxisAlignment::Start))
}

fn check_cross_axis(mut stack: Stack<Label>) {
    let alignments = [
        CrossAxisAlignment::Start,
        CrossAxisAlignment::Center,
        CrossAxisAlignment::End,
        CrossAxisAlignment::Baseline,
        CrossAxisAlignment::Stretch,
    ];
    for (n, alignment) in alignments.iter().enumerate() {
        Stack::set_cross_axis_alignment(&mut stack, *alignment);
        assert_eq!(stack.child_alignment(0), *alignment);
        assert_eq!(stack.child_alignment(1), *alignment);
        assert_eq!(stack.child_alignment(2), CrossAxisAlignment::Start);
        assert_eq!(stack.requests.len(), n + 1);
    }
    assert!(stack.requests.iter().all(|r| *r == Request::Layout));
}

fn check_main_axis(mut stack: Stack<Label>) {
    let alignments = [
        MainAxisAlignment::Start,
        MainAxisAlignment::Center,
        MainAxisAlignment::End,
        MainAxisAlignment::SpaceBetween,
        MainAxisAlignment::SpaceEvenly,
        MainAxisAlignment::SpaceAround,
    ];
    for (n, alignment) in alignments.iter().enumerate() {
        Stack::set_main_axis_alignment(&mut stack, *alignment);
        assert_eq!(stack.main_alignment, *alignment);
        assert_eq!(stack.len(), 3);
        assert_eq!(stack.requests.len(), n + 1);
    }
    assert!(stack.requests.iter().all(|r| *r == Request::Layout));
}

#[test]
fn stack_row_cross_axis_snapshots() {
    check_cross_axis(three_labels(Stack::row()));
}

#[test]
fn stack_row_main_axis_snapshots() {
    check_main_axis(three_labels(Stack::row()));
}

#[test]
fn stack_col_cross_axis_snapshots() {
    check_cross_axis(three_labels(Stack::column()));
}

#[test]
fn stack_col_main_axis_snapshots() {
    check_main_axis(three_labels(Stack::column()));
}
