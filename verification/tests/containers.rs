use masonry::button::Button;
use masonry::button9::{Button9, LPos, Pad9};
use masonry::flex::{
    effective_basis, is_valid_flex, CrossAxisAlignment, Flex, FlexBasis, FlexChild, FlexParams,
    MainAxisAlignment,
};
use masonry::grid::{Grid, GridParams, GridTrackSize};
use masonry::image::Image;
use masonry::label::Label;
use masonry::list::List;
use masonry::selector::{MenuLayerAction, Selector};
use masonry::selector_item::SelectorItem;
use masonry::widget::{
    AccessAction, Axis, EventCtx, Insets, KeyEvent, KeyInput, Length, MouseButton, PointerInput, Request,
    WidgetId, WidgetPod, F64,
};

fn f(v: f64) -> F64 {
    F64(v.to_bits())
}

fn button(text: &str) -> WidgetPod<Button<Label>> {
    WidgetPod::new(Button::with_text(text))
}

fn cells(grid: &Grid<Button<Label>>) -> Vec<(u16, u16)> {
    grid.children.iter().map(|c| (c.x, c.y)).collect()
}

fn texts(grid: &Grid<Button<Label>>) -> Vec<String> {
    grid.children.iter().map(|c| c.widget.widget.child.widget.text.clone()).collect()
}

#[test]
fn test_grid_basics() {
    let mut grid = Grid::new()
        .with_column(GridTrackSize::fraction())
        .with_row(GridTrackSize::fraction())
        .with(button("A"), GridParams::from((0, 0)));
    grid.assign_cell_to_auto_placed_children();
    assert_eq!(cells(&grid), vec![(0, 0)]);

    Grid::set_columns(&mut grid, vec![GridTrackSize::fraction(); 4]);
    Grid::set_rows(&mut grid, vec![GridTrackSize::fraction(); 4]);
    Grid::add(&mut grid, button("B"), GridParams::from((1, 0, 3, 1)));
    Grid::add(&mut grid, button("C"), GridParams::from((0, 1, 1, 3)));
    Grid::add(&mut grid, button("D"), GridParams::from((1, 1, 2, 2)));
    grid.assign_cell_to_auto_placed_children();
    assert_eq!(cells(&grid), vec![(0, 0), (1, 0), (0, 1), (1, 1)]);
    assert_eq!(grid.children[1].params, GridParams { col: Some(1), row: Some(0), width: 3, height: 1 });
    assert_eq!(grid.children[3].params, GridParams::pos(1, 1).with_span(2, 2));
    assert_eq!(grid.columns.len(), 4);
    assert_eq!(grid.rows.len(), 4);
}

#[test]
fn grid_test_widget_removal_and_modification() {
    let mut grid = Grid::new()
        .with_columns(vec![GridTrackSize::fraction(); 2])
        .with_rows(vec![GridTrackSize::fraction(); 2])
        .with(button("A"), GridParams::from((0, 0)));
    Grid::remove(&mut grid, 0);
    assert!(grid.is_empty());
    Grid::add(&mut grid, button("A"), GridParams::from((0, 0)));
    assert_eq!(texts(&grid), vec!["A"]);

    Grid::remove(&mut grid, 0);
    Grid::add(&mut grid, button("X"), GridParams::from((0, 0)));
    Grid::set(&mut grid, 0, button("A"), GridParams::from((0, 0)));
    assert_eq!(texts(&grid), vec!["A"]);

    Grid::set_params(&mut grid, 0, GridParams::from((1, 1)));
    grid.assign_cell_to_auto_placed_children();
    assert_eq!(cells(&grid), vec![(1, 1)]);

    Grid::set_params(&mut grid, 0, GridParams::from((0, 0, 2, 2)));
    grid.assign_cell_to_auto_placed_children();
    assert_eq!(cells(&grid), vec![(0, 0)]);
    assert_eq!(grid.children[0].params.width, 2);
}

#[test]
fn test_widget_order() {
    let mut grid = Grid::new()
        .with_columns(vec![GridTrackSize::fraction(); 2])
        .with_rows(vec![GridTrackSize::fraction(); 2])
        .with(button("A"), GridParams::from((0, 0)));
    // Adding after draws over A.
    Grid::add(&mut grid, button("B"), GridParams::from((0, 0)));
    // Inserting at index 0 draws under the others.
    Grid::insert(&mut grid, 0, button("C"), GridParams::from((0, 0, 2, 1)));
    assert_eq!(texts(&grid), vec!["C", "A", "B"]);
}

#[test]
fn grid_auto_placement() {
    let mut grid = Grid::new()
        .with_columns(vec![GridTrackSize::fraction(); 3])
        .with_rows(vec![GridTrackSize::fraction(); 3])
        .with(button("fixed"), GridParams::pos(0, 0))
        .with(button("a"), GridParams::new())
        .with(button("b"), GridParams::new().with_span(2, 1))
        .with(button("col2"), GridParams::new().with_col(2))
        .with(button("row2"), GridParams::new().with_row(2));
    grid.assign_cell_to_auto_placed_children();
    // `a` takes the first free cell after the fixed one; `b` does not fit in
    // the rest of row 0 and goes to the next row; `col2` scans down column 2,
    // whose first row is taken; `row2` scans along row 2.
    assert_eq!(cells(&grid), vec![(0, 0), (1, 0), (0, 1), (2, 0), (0, 2)]);
    assert_eq!(GridParams::from(()), GridParams::new());
    assert_eq!(GridParams::from(((), (), 0u16, ())), GridParams::new());
    assert_eq!(GridParams::new().with_width(3).with_height(2), GridParams::new().with_span(3, 2));
}

#[test]
fn get_flex_child() {
    let mut flex = Flex::column()
        .with_fixed(WidgetPod::new(Label::new("hello")))
        .with_fixed(WidgetPod::new(Label::new("world")))
        .with_fixed_spacer(Length(f(1.0)));
    assert_eq!(Flex::get_mut(&mut flex, 1).text, "world");
    assert_eq!(flex.len(), 3);
    assert_eq!(flex.children_ids(), vec![None, None]);
}

#[test]
fn invalid_flex_params() {
    assert!(!is_valid_flex(f(f64::NAN)));
    assert!(!is_valid_flex(f(f64::INFINITY)));
    assert!(!is_valid_flex(f(-0.5)));
    assert!(!is_valid_flex(f(-1.0)));
    assert!(is_valid_flex(f(-0.0)));
    assert!(is_valid_flex(f(2.0)));
}

#[test]
fn flex_children_management() {
    let mut flex = Flex::row()
        .cross_axis_alignment(CrossAxisAlignment::Start)
        .main_axis_alignment(MainAxisAlignment::SpaceAround);
    Flex::add(&mut flex, WidgetPod::with_id(Label::new("a"), WidgetId(1)), FlexParams::from(f(1.0)));
    Flex::add_spacer(&mut flex, f(2.0));
    Flex::insert_fixed(&mut flex, 0, WidgetPod::with_id(Label::new("b"), WidgetId(2)));
    assert_eq!(flex.children_ids(), vec![Some(WidgetId(2)), Some(WidgetId(1))]);
    Flex::set_params(&mut flex, 1, FlexParams::new(f(3.0), Some(FlexBasis::Auto), None));
    match &flex.children[1] {
        FlexChild::Widget { flex, basis, .. } => {
            assert_eq!(*flex, f(3.0));
            assert_eq!(*basis, Some(FlexBasis::Auto));
        }
        FlexChild::Spacer { .. } => panic!("expected a widget"),
    }
    Flex::set_fixed_spacer(&mut flex, 0, Length(f(4.0)));
    Flex::remove(&mut flex, 2);
    Flex::swap(&mut flex, 0, 1);
    Flex::clear(&mut flex);
    assert!(flex.is_empty());
    assert_eq!(
        flex.requests,
        vec![
            Request::ChildrenChanged,
            Request::Layout,
            Request::ChildrenChanged,
            Request::ChildrenChanged,
            Request::RemoveChild,
            Request::Layout,
            Request::Layout,
            Request::ChildrenChanged,
            Request::RemoveChild,
            Request::Layout,
        ]
    );
    assert_eq!(effective_basis(None, f(0.0)), FlexBasis::Auto);
    assert_eq!(effective_basis(None, f(-0.0)), FlexBasis::Auto);
    assert_eq!(effective_basis(None, f(1.0)), FlexBasis::Zero);
    assert_eq!(effective_basis(Some(FlexBasis::Auto), f(1.0)), FlexBasis::Auto);
    assert_eq!(FlexParams::from(CrossAxisAlignment::End).alignment, Some(CrossAxisAlignment::End));
}

#[test]
fn list_children_and_gap() {
    let mut list = List::<Label>::column().gap(f(3.0));
    assert_eq!(list.gap, f(3.0));
    List::set_gap(&mut list, f(4.5));
    assert_eq!(list.gap, f(4.5));
    List::add_child(&mut list, Label::new("a"));
    List::insert_child(&mut list, 0, Label::new("b"));
    assert_eq!(List::child_mut(&mut list, 1).text, "a");
    List::remove_child(&mut list, 0);
    List::set_direction(&mut list, Axis::Horizontal);
    List::clear(&mut list);
    List::clear(&mut list);
    assert!(list.is_empty());
    assert_eq!(
        list.requests,
        vec![
            Request::Layout,
            Request::ChildrenChanged,
            Request::ChildrenChanged,
            Request::RemoveChild,
            Request::Layout,
            Request::Layout,
            Request::Layout,
            Request::RemoveChild,
        ]
    );
}

#[test]
fn edit_image() {
    let mut image = Image::new(1u32).with_alt_text("A cat");
    assert_eq!(image.alt_text, Some("A cat".to_string()));
    Image::set_image_data(&mut image, 2u32);
    Image::set_alt_text(&mut image, None);
    assert_eq!(image.image_data, 2);
    assert_eq!(image.alt_text, None);
    assert_eq!(image.requests, vec![Request::Layout, Request::AccessibilityUpdate]);
}

#[test]
fn selector_options() {
    let mut sel = Selector::new(vec!["one".to_string(), "two".to_string(), "three".to_string()]);
    assert_eq!(sel.child.widget.text, "one");
    Selector::select_option(&mut sel, 2);
    assert_eq!(sel.selected_option, 2);
    assert_eq!(sel.child.widget.text, "three");
    Selector::select_option(&mut sel, 0);
    assert_eq!(sel.selected_option, 0);
    assert_eq!(sel.child.widget.text, "one");
    Selector::set_options(&mut sel, vec!["x".to_string(), "y".to_string()]);
    assert_eq!(sel.options, vec!["x".to_string(), "y".to_string()]);
    assert_eq!(sel.selected_option, 0);
    assert_eq!(sel.child.widget.text, "x");
    let sel = sel.with_selected_option(1);
    assert_eq!(sel.selected_option, 1);
    assert_eq!(sel.child.widget.text, "x");
}

#[test]
fn selector_menu_toggles() {
    let mut sel = Selector::new(vec!["a".to_string(), "b".to_string()]).with_selected_option(1);
    let mut ctx = EventCtx::new(false, false, false, true);
    match sel.on_access_event(&mut ctx, AccessAction::Click) {
        Some(MenuLayerAction::Create { options, selected_option }) => {
            assert_eq!(options, vec!["a".to_string(), "b".to_string()]);
            assert_eq!(selected_option, 1);
        }
        _ => panic!("expected a new menu"),
    }
    sel.menu_layer_id = Some(WidgetId(5));
    let enter = KeyEvent { key: KeyInput::Enter, is_up: true };
    match sel.on_text_event(&mut ctx, &enter) {
        Some(MenuLayerAction::Remove(id)) => assert_eq!(id, WidgetId(5)),
        _ => panic!("expected the menu to close"),
    }
    assert!(sel.menu_layer_id.is_none());
    let mut down = EventCtx::new(false, true, false, true);
    assert!(sel.on_pointer_event(&mut down, PointerInput::Down).is_none());
    assert!(down.pointer_captured);
    let item = SelectorItem::new("b".to_string());
    assert_eq!(item.child.widget.text, "b");
}

#[test]
fn button9_labels_and_padding() {
    let pad = Insets { x0: f(1.0), y0: f(2.0), x1: f(3.0), y1: f(4.0) };
    let mut b = Button9::new("Center")
        .add1(Label::new("TL"), Some(pad))
        .addx(LPos::LJ9, Label::new("BR"), None);
    assert_eq!(b.label.HI5.widget.text, "Center");
    assert_eq!(b.label.TL1.widget.text, "TL");
    assert_eq!(b.label.LJ9.widget.text, "BR");
    assert_eq!(b.label.TI2.widget.text, "");
    assert_eq!(b.opt.pad.TL1, Some(pad));
    Button9::set_text5(&mut b, "Middle");
    Button9::set_textx(&mut b, LPos::HL4, "Left");
    assert_eq!(b.label.HI5.widget.text, "Middle");
    assert_eq!(b.label.HL4.widget.text, "Left");
    Button9::set_pad9(&mut b, Some(pad));
    Button9::set_padx(&mut b, LPos::TL1, None);
    assert_eq!(b.opt.pad.LJ9, Some(pad));
    assert_eq!(b.opt.pad.TL1, None);
    assert_eq!(b.requests, vec![Request::Render, Request::Render]);
    assert_eq!(LPos::TL1.number(), 1);
    assert_eq!(LPos::LJ9.number(), 9);
    assert_eq!(Button9::pad_def(), Insets { x0: f(8.0), y0: f(2.0), x1: f(8.0), y1: f(2.0) });
}

#[test]
fn button9_from_label_pod_order() {
    let pods: Vec<WidgetPod<Label>> =
        (1..=9).map(|i| WidgetPod::new(Label::new(&i.to_string()))).collect();
    let b = Button9::from_label_pod(pods, Pad9::default());
    let order: Vec<String> = [
        &b.label.TL1, &b.label.TI2, &b.label.TJ3,
        &b.label.HL4, &b.label.HI5, &b.label.HJ6,
        &b.label.LL7, &b.label.LI8, &b.label.LJ9,
    ]
    .iter()
    .map(|p| p.widget.text.clone())
    .collect();
    assert_eq!(order, vec!["1", "2", "3", "4", "5", "6", "7", "8", "9"]);
}

#[test]
fn button9_press() {
    let mut b = Button9::new("x");
    let mut ctx = EventCtx::new(false, false, false, true);
    b.on_access_event(&mut ctx, AccessAction::Click);
    assert_eq!(ctx.actions.len(), 1);
    assert_eq!(ctx.actions[0].button, Some(MouseButton::Primary));
    let mut disabled = EventCtx::new(true, true, true, true);
    b.on_pointer_event(&mut disabled, PointerInput::Down);
    b.on_pointer_event(&mut disabled, PointerInput::Up(None));
    assert!(disabled.actions.is_empty());
    assert!(!disabled.pointer_captured);
}

fn describe_flex(flex: &Flex<Label>) -> Vec<String> {
    flex.children
        .iter()
        .map(|c| match c {
            FlexChild::Widget { widget, alignment, flex, basis } => {
                format!("{}:{:?}:{:?}:{:?}", widget.widget.text, flex, basis, alignment)
            }
            FlexChild::Spacer { flex, basis } => format!("spacer:{:?}:{:?}", flex, basis),
        })
        .collect()
}

#[test]
fn edit_flex_container() {
    let label = |t: &str| WidgetPod::new(Label::new(t));
    let mut flex_1 = Flex::column()
        .with_fixed(label("q"))
        .with_fixed(label("b"))
        .with_fixed(label("w"))
        .with_fixed(label("d"));
    Flex::set_fixed(&mut flex_1, 0, label("a"));
    Flex::set(&mut flex_1, 2, label("c"), FlexParams::from(f(0.)));
    Flex::remove(&mut flex_1, 1);
    Flex::add_fixed(&mut flex_1, label("x"));
    Flex::add(&mut flex_1, label("y"), FlexParams::from(f(2.0)));
    Flex::add_fixed_spacer(&mut flex_1, Length(f(5.0)));
    Flex::add_spacer(&mut flex_1, f(1.0));
    Flex::insert_fixed(&mut flex_1, 2, label("i"));
    Flex::insert(&mut flex_1, 2, label("j"), FlexParams::from(f(2.0)));
    Flex::insert_fixed_spacer(&mut flex_1, 2, Length(f(5.0)));
    Flex::insert_spacer(&mut flex_1, 2, f(1.0));

    let flex_2 = Flex::column()
        .with_fixed(label("a"))
        .with_fixed(label("c"))
        .with_spacer(f(1.0))
        .with_fixed_spacer(Length(f(5.0)))
        .with(label("j"), FlexParams::from(f(2.0)))
        .with_fixed(label("i"))
        .with_fixed(label("d"))
        .with_fixed(label("x"))
        .with(label("y"), FlexParams::from(f(2.0)))
        .with_fixed_spacer(Length(f(5.0)))
        .with_spacer(f(1.0));

    assert_eq!(describe_flex(&flex_1), describe_flex(&flex_2));
}

fn four_flex_children(flex: Flex<Label>) -> Flex<Label> {
    flex.with_fixed(WidgetPod::new(Label::new("hello")))
        .with(WidgetPod::new(Label::new("world")), FlexParams::from(f(1.0)))
        .with_fixed(WidgetPod::new(Label::new("foo")))
        .with(
            WidgetPod::new(Label::new("bar")),
            FlexParams::new(f(2.0), None, Some(CrossAxisAlignment::Start)),
        )
}

fn four_fixed_flex_children(flex: Flex<Label>) -> Flex<Label> {
    flex.with_fixed(WidgetPod::new(Label::new("hello")))
        .with_fixed(WidgetPod::new(Label::new("world")))
        .with_fixed(WidgetPod::new(Label::new("foo")))
        .with(WidgetPod::new(Label::new("bar")), FlexParams::from(CrossAxisAlignment::Start))
}

fn check_flex_cross_axis(mut flex: Flex<Label>) {
    let alignments = [
        CrossAxisAlignment::Start,
        CrossAxisAlignment::Center,
        CrossAxisAlignment::End,
        CrossAxisAlignment::Baseline,
        CrossAxisAlignment::Stretch,
    ];
    for (n, alignment) in alignments.iter().enumerate() {
        Flex::set_cross_axis_alignment(&mut flex, *alignment);
        assert_eq!(flex.cross_alignment, *alignment);
        assert_eq!(flex.len(), 4);
        assert_eq!(flex.requests.len(), n + 1);
    }
    assert!(flex.requests.iter().all(|r| *r == Request::Layout));
}

fn check_flex_main_axis(mut flex: Flex<Label>) {
    let alignments = [
        MainAxisAlignment::Start,
        MainAxisAlignment::Center,
        MainAxisAlignment::End,
        MainAxisAlignment::SpaceBetween,
        MainAxisAlignment::SpaceEvenly,
        MainAxisAlignment::SpaceAround,
    ];
    for (n, alignment) in alignments.iter().enumerate() {
        Flex::set_main_axis_alignment(&mut flex, *alignment);
        assert_eq!(flex.main_alignment, *alignment);
        assert_eq!(flex.requests.len(), n + 1);
    }
    assert!(flex.requests.iter().all(|r| *r == Request::Layout));
}

#[test]
fn flex_row_cross_axis_snapshots() {
    check_flex_cross_axis(four_flex_children(Flex::row()));
}

#[test]
fn flex_row_main_axis_snapshots() {
    check_flex_main_axis(four_fixed_flex_children(Flex::row()));
}

#[test]
fn flex_col_cross_axis_snapshots() {
    check_flex_cross_axis(four_flex_children(Flex::column()));
}

#[test]
fn flex_col_main_axis_snapshots() {
    check_flex_main_axis(four_fixed_flex_children(Flex::column()));
}

#[test]
fn grid_nonuniform() {
    let mut grid = Grid::new()
        .with_columns(vec![
            GridTrackSize::MinContent,
            GridTrackSize::MaxContent,
            GridTrackSize::Fraction(f(1.)),
        ])
        .with_rows(vec![
            GridTrackSize::Auto,
            GridTrackSize::Fixed(f(30.)),
            GridTrackSize::Percentage(f(0.2)),
            GridTrackSize::Fraction(f(2.)),
            GridTrackSize::Fraction(f(1.)),
        ])
        .with(button("Min Content"), GridParams::from(()))
        .with(button("Max Content"), GridParams::from(()))
        .with(button("1×3"), GridParams::from((2, 0, (), 3)))
        .with(button("20px"), GridParams::from((1, ())))
        .with(button("30%"), GridParams::from(()))
        .with(button("2×2"), GridParams::from((1, 2, 2, 2)))
        .with(button("2fr"), GridParams::from(()))
        .with(button("1fr"), GridParams::from((2, ())));
    grid.assign_cell_to_auto_placed_children();
    assert_eq!(
        cells(&grid),
        vec![(0, 0), (1, 0), (2, 0), (1, 1), (0, 2), (1, 2), (0, 3), (2, 4)]
    );
}

#[test]
fn grid_baselines() {
    let mut grid = Grid::new()
        .with_columns(vec![GridTrackSize::fraction(); 3])
        .with_rows(vec![GridTrackSize::fraction(); 3])
        .with(button("A"), GridParams::from((1, 0)))
        .with(button("B"), GridParams::from((0, 0, 1, 2)))
        .with(button("C"), GridParams::from((2, 0, 1, 3)))
        .with(button("D"), GridParams::from((1, 1, 1, 2)));
    grid.assign_cell_to_auto_placed_children();
    assert_eq!(cells(&grid), vec![(1, 0), (0, 0), (2, 0), (1, 1)]);
}
