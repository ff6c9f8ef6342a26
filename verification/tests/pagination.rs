use masonry::pagination::{PageChanged, Pagination};
use masonry::widget::{EventCtx, Request, UpdateEvent, WidgetId};

#[test]
fn button_pages() {
    let pg = Pagination::new(0);
    assert_eq!(pg.derive_button_pages(), Vec::<usize>::new());

    let pg = Pagination::new(1);
    assert_eq!(pg.derive_button_pages(), vec![0]);

    let pg = Pagination::new(2);
    assert_eq!(pg.derive_button_pages(), vec![0, 1]);

    let pg = Pagination::new(10)
        .buttons_total(0)
        .buttons_start(1)
        .buttons_end(1)
        .active_page(5);
    assert_eq!(pg.derive_button_pages(), Vec::<usize>::new());

    let pg = Pagination::new(10)
        .buttons_total(1)
        .buttons_start(1)
        .buttons_end(1)
        .active_page(5);
    assert_eq!(pg.derive_button_pages(), vec![5]);

    let pg = Pagination::new(10)
        .buttons_total(2)
        .buttons_start(1)
        .buttons_end(1)
        .active_page(5);
    assert_eq!(pg.derive_button_pages(), vec![0, 5]);

    let pg = Pagination::new(10)
        .buttons_total(3)
        .buttons_start(1)
        .buttons_end(1)
        .active_page(5);
    assert_eq!(pg.derive_button_pages(), vec![0, 5, 9]);

    let pg = Pagination::new(10)
        .buttons_total(5)
        .buttons_start(1)
        .buttons_end(1)
        .active_page(5);
    assert_eq!(pg.derive_button_pages(), vec![0, 4, 5, 6, 9]);

    let pg = Pagination::new(10)
        .buttons_total(5)
        .buttons_start(2)
        .buttons_end(2)
        .active_page(5);
    assert_eq!(pg.derive_button_pages(), vec![0, 1, 5, 8, 9]);

    let pg = Pagination::new(10)
        .buttons_total(5)
        .buttons_start(0)
        .buttons_end(2)
        .active_page(3);
    assert_eq!(pg.derive_button_pages(), vec![2, 3, 4, 8, 9]);

    let pg = Pagination::new(10)
        .buttons_total(5)
        .buttons_start(1)
        .buttons_end(1)
        .active_page(9);
    assert_eq!(pg.derive_button_pages(), vec![0, 6, 7, 8, 9]);

    let pg = Pagination::new(10)
        .buttons_total(20)
        .buttons_start(1)
        .buttons_end(1)
        .active_page(9);
    assert_eq!(pg.derive_button_pages(), vec![0, 1, 2, 3, 4, 5, 6, 7, 8, 9]);
}

#[test]
fn active_page_is_clamped() {
    assert_eq!(Pagination::new(10).active_page(42).active_page, 9);
    assert_eq!(Pagination::new(0).active_page(42).active_page, 0);
    assert_eq!(Pagination::new(10).active_page(3).active_page, 3);
}

#[test]
fn widget_added_creates_buttons() {
    let mut pg = Pagination::new(20).active_page(7);
    pg.update(UpdateEvent::WidgetAdded);
    let pages: Vec<usize> = pg.buttons.iter().map(|b| b.page_idx).collect();
    assert_eq!(pages, vec![0, 4, 5, 6, 7, 8, 9, 10, 19]);
    let labels: Vec<String> = pg.buttons.iter().map(|b| b.widget.widget.child.widget.text.clone()).collect();
    assert_eq!(labels, vec!["1", "5", "6", "7", "8", "9", "10", "11", "20"]);
    let disabled: Vec<bool> = pg.buttons.iter().map(|b| b.disabled).collect();
    assert_eq!(disabled, vec![false, false, false, false, true, false, false, false, false]);
    assert_eq!(pg.requests, vec![Request::ChildrenChanged]);
}

#[test]
fn fewer_pages_stash_buttons() {
    let mut pg = Pagination::new(20).active_page(7);
    pg.update(UpdateEvent::WidgetAdded);
    Pagination::set_page_count(&mut pg, 3);
    assert_eq!(pg.active_page, 2);
    assert_eq!(pg.buttons.len(), 9);
    let pages: Vec<usize> = pg.buttons.iter().take(3).map(|b| b.page_idx).collect();
    assert_eq!(pages, vec![0, 1, 2]);
    assert!(pg.buttons.iter().skip(3).all(|b| b.stashed));
    assert!(pg.buttons.iter().take(3).all(|b| !b.stashed));
    assert_eq!(pg.buttons[2].widget.widget.child.widget.text, "3");
    // No buttons were created or removed by the second synchronization.
    assert_eq!(pg.requests, vec![Request::ChildrenChanged]);

    Pagination::set_buttons_total(&mut pg, 2);
    assert_eq!(pg.buttons.len(), 2);
    assert_eq!(
        pg.requests,
        vec![
            Request::ChildrenChanged,
            Request::RemoveChild,
            Request::RemoveChild,
            Request::RemoveChild,
            Request::RemoveChild,
            Request::RemoveChild,
            Request::RemoveChild,
            Request::RemoveChild,
        ]
    );
}

#[test]
fn pressing_a_page_button_changes_page() {
    let mut pg = Pagination::new(10);
    pg.update(UpdateEvent::WidgetAdded);
    for (i, b) in pg.buttons.iter_mut().enumerate() {
        b.widget.id = Some(WidgetId(100 + i as u64));
    }
    let target = pg.buttons[3].page_idx;
    let mut ctx = EventCtx::new(false, false, false, true);
    pg.on_action(&mut ctx, true, WidgetId(103));
    assert_eq!(pg.active_page, target);
    assert_eq!(ctx.actions, vec![PageChanged(target)]);
    assert!(ctx.handled);

    let mut ctx = EventCtx::new(false, false, false, true);
    pg.on_action(&mut ctx, true, WidgetId(999));
    assert!(ctx.actions.is_empty());
    assert!(!ctx.handled);
}

#[test]
fn an_action_from_a_stashed_button_is_ignored() {
    let mut pg = Pagination::new(10);
    pg.update(UpdateEvent::WidgetAdded);
    for (i, b) in pg.buttons.iter_mut().enumerate() {
        b.widget.id = Some(WidgetId(100 + i as u64));
    }
    // Fewer pages: the buttons beyond them are stashed.
    Pagination::set_page_count(&mut pg, 2);
    let stashed = pg.buttons.iter().position(|b| b.stashed).unwrap();
    let active = pg.active_page;
    let mut ctx = EventCtx::new(false, false, false, true);
    pg.on_action(&mut ctx, true, WidgetId(100 + stashed as u64));
    assert_eq!(pg.active_page, active);
    assert!(ctx.actions.is_empty());
    assert!(!ctx.handled);
}

#[test]
fn sync_buttons_follows_the_pages() {
    let mut pg = Pagination::new(3);
    pg.sync_buttons();
    let pages: Vec<usize> = pg.buttons.iter().filter(|b| !b.stashed).map(|b| b.page_idx).collect();
    assert_eq!(pages, vec![0, 1, 2]);
    assert_eq!(pg.requests, vec![Request::ChildrenChanged]);
    // Nothing changed: synchronizing again requests nothing new.
    pg.sync_buttons();
    assert_eq!(pg.requests, vec![Request::ChildrenChanged]);
}
