use gitsy::menu::MainMenu;

#[test]
fn new_menu_has_three_items_and_starts_at_first() {
    let m = MainMenu::new();
    assert_eq!(m.items.len(), 3);
    assert_eq!(m.selected, 0);
    assert_eq!(m.items[0], "Create new branch");
    assert_eq!(m.items[1], "Delete a branch");
    assert_eq!(m.items[2], "Exit");
}

#[test]
fn next_wraps_forward() {
    let mut m = MainMenu::new();
    m.next();
    assert_eq!(m.selected, 1);
    m.next();
    assert_eq!(m.selected, 2);
    m.next();
    assert_eq!(m.selected, 0);
}

#[test]
fn previous_wraps_backward() {
    let mut m = MainMenu::new();
    m.previous();
    assert_eq!(m.selected, 2);
    m.previous();
    assert_eq!(m.selected, 1);
    m.previous();
    assert_eq!(m.selected, 0);
}

#[test]
fn next_then_previous_returns_to_origin_from_every_selection() {
    for start in 0..3 {
        let mut m = MainMenu::new();
        for _ in 0..start {
            m.next();
        }
        assert_eq!(m.selected, start);
        m.next();
        m.previous();
        assert_eq!(m.selected, start);
        m.previous();
        m.next();
        assert_eq!(m.selected, start);
    }
}
