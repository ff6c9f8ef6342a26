use masonry::button::Button;
use masonry::indexed_stack::IndexedStack;
use masonry::label::Label;
use masonry::widget::{Request, WidgetPod};

fn button(text: &str) -> WidgetPod<Button<Label>> {
    WidgetPod::new(Button::with_text(text))
}

fn active_text(stack: &IndexedStack<Button<Label>>) -> String {
    stack.children[stack.active_child()].widget.child.widget.text.clone()
}

#[test]
fn test_indexed_stack_basics() {
    let mut stack = IndexedStack::<Button<Label>>::new();
    assert_eq!(stack.len(), 0);
    assert_eq!(stack.active_child(), 0);

    IndexedStack::add(&mut stack, button("A"));
    assert_eq!(active_text(&stack), "A");

    IndexedStack::add(&mut stack, button("B"));
    IndexedStack::add(&mut stack, button("C"));
    IndexedStack::add(&mut stack, button("D"));
    // The active child does not change.
    assert_eq!(active_text(&stack), "A");

    IndexedStack::set_active_child(&mut stack, 2);
    assert_eq!(active_text(&stack), "C");
    assert_eq!(stack.stashed_children(), vec![true, true, false, true]);
    assert_eq!(
        stack.requests,
        vec![
            Request::ChildrenChanged,
            Request::ChildrenChanged,
            Request::ChildrenChanged,
            Request::ChildrenChanged,
            Request::Layout,
        ]
    );
}

#[test]
fn indexed_stack_test_widget_removal_and_modification() {
    let mut stack = IndexedStack::new()
        .with(button("A"))
        .with(button("B"))
        .with(button("C"))
        .with_active_child(1);
    assert_eq!(active_text(&stack), "B");

    // Remove the first (inactive) widget: the shown child does not change.
    IndexedStack::remove(&mut stack, 0);
    assert_eq!(active_text(&stack), "B");

    // Now remove the active widget.
    IndexedStack::remove(&mut stack, 0);
    assert_eq!(active_text(&stack), "C");

    // Add another widget at the end: the shown child does not change.
    IndexedStack::add(&mut stack, button("D"));
    assert_eq!(active_text(&stack), "C");

    // Make it active.
    IndexedStack::set_active_child(&mut stack, 1);
    assert_eq!(active_text(&stack), "D");

    // Insert back the first two at the start: the shown child does not change.
    IndexedStack::insert(&mut stack, 0, button("A"));
    IndexedStack::insert(&mut stack, 1, button("B"));
    assert_eq!(active_text(&stack), "D");

    // Reset the original active index.
    IndexedStack::set_active_child(&mut stack, 1);
    assert_eq!(active_text(&stack), "B");

    // Change the active widget.
    IndexedStack::set(&mut stack, 1, button("D"));
    assert_eq!(active_text(&stack), "D");
    assert_eq!(stack.len(), 4);
}

#[test]
fn indexed_stack_swap_and_clear() {
    let mut stack = IndexedStack::new().with(button("A")).with(button("B")).with_active_child(0);
    IndexedStack::swap(&mut stack, 0, 1);
    // The active index is kept, so the other child shows.
    assert_eq!(active_text(&stack), "B");
    IndexedStack::clear(&mut stack);
    assert!(stack.is_empty());
    assert_eq!(stack.active_child(), 0);
    assert_eq!(
        stack.requests,
        vec![Request::ChildrenChanged, Request::RemoveChild, Request::RemoveChild]
    );
}

#[test]
fn insert_into_empty_stack_activates_the_new_child() {
    let mut stack = IndexedStack::new();
    IndexedStack::insert(&mut stack, 0, button("A"));
    assert_eq!(stack.active_child(), 0);
    assert_eq!(active_text(&stack), "A");
    IndexedStack::insert(&mut stack, 0, button("B"));
    assert_eq!(stack.active_child(), 1);
    assert_eq!(active_text(&stack), "A");
}
