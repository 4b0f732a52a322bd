use embedded_menu::{
    viewport_window, CheckboxItem, Menu, MenuItem, MenuItemData, MenuItems, MenuState,
    MultiOptionItem, SelectedData,
};

fn state_with(count: usize, start: usize) -> MenuState {
    let mut s = MenuState::new();
    s.update_item_count(count);
    for _ in 0..start {
        s.move_down();
    }
    s
}

#[test]
fn move_down_wraps_after_item_count_steps() {
    for n in 1..6usize {
        for start in 0..n {
            let mut s = state_with(n, start);
            assert_eq!(s.highlighted_item(), start);
            for _ in 0..n {
                s.move_down();
            }
            assert_eq!(s.highlighted_item(), start);
        }
    }
}

#[test]
fn move_down_wraps_to_zero_past_end() {
    let mut s = state_with(3, 2);
    s.move_down();
    assert_eq!(s.highlighted_item(), 0);
}

#[test]
fn move_up_inverts_move_down() {
    for n in 1..6usize {
        for start in 0..n {
            let mut s = state_with(n, start);
            s.move_down();
            s.move_up();
            assert_eq!(s.highlighted_item(), start);
            s.move_up();
            s.move_down();
            assert_eq!(s.highlighted_item(), start);
        }
    }
}

#[test]
fn move_up_wraps_to_last() {
    let mut s = state_with(4, 0);
    s.move_up();
    assert_eq!(s.highlighted_item(), 3);
}

#[test]
fn moves_on_empty_level_do_nothing() {
    let mut s = MenuState::new();
    s.move_up();
    assert_eq!(s.highlighted_item(), 0);
    s.move_down();
    assert_eq!(s.highlighted_item(), 0);
    assert_eq!(s.item_count(), 0);
}

#[test]
fn checkbox_double_activation_restores_display() {
    let mut c = CheckboxItem::new("Check", 1u32);
    assert_eq!(c.display_string(), "[ ]");
    assert_eq!(c.selected(), SelectedData::Checkbox { id: 1, state: true });
    assert_eq!(c.display_string(), "[X]");
    assert_eq!(c.selected(), SelectedData::Checkbox { id: 1, state: false });
    assert_eq!(c.display_string(), "[ ]");
    assert_eq!(c.label(), "Check");
}

#[test]
fn selector_cycles_and_wraps() {
    let options = ["a", "b", "c"];
    let mut s = MultiOptionItem::new("Sel", 7u32, &options, 0);
    assert_eq!(s.display_string(), "a");
    let mut seen = Vec::new();
    for _ in 0..3 {
        match s.selected() {
            SelectedData::MultiOption { id, option_id } => {
                assert_eq!(id, 7);
                seen.push(option_id);
            }
            other => panic!("unexpected {:?}", other),
        }
    }
    assert_eq!(seen, vec![1, 2, 0]);
    assert_eq!(s.display_string(), "a");
}

#[test]
fn selector_initial_option_is_clamped() {
    let options = ["a", "b", "c"];
    let mut s = MultiOptionItem::new("Sel", 0u32, &options, 34);
    assert_eq!(s.display_string(), "c");
    assert_eq!(s.selected(), SelectedData::MultiOption { id: 0, option_id: 0 });
    let in_range = MultiOptionItem::new("Sel", 0u32, &options, 1);
    assert_eq!(in_range.display_string(), "b");
}

#[test]
fn add_selector_defaults_and_clamps() {
    let options = ["x", "y", "z"];
    let mut m = Menu::new("Root", 0u32);
    m.add_selector("Default", 1, &options, None);
    m.add_selector("Clamped", 2, &options, Some(34));
    assert_eq!(m.item(0).display_string(), "x");
    assert_eq!(m.item(1).display_string(), "z");
}

#[test]
fn section_is_skipped_going_down() {
    let mut m = Menu::new("Root", 0u32);
    m.add_checkbox("A", 1);
    m.add_section("S", 2);
    m.add_checkbox("B", 3);
    assert_eq!(m.highlighted_item(), 0);
    m.navigate_down();
    assert_eq!(m.highlighted_item(), 2);
    m.navigate_up();
    assert_eq!(m.highlighted_item(), 0);
    m.navigate_up();
    assert_eq!(m.highlighted_item(), 2);
}

#[test]
fn cursor_never_rests_on_consecutive_sections() {
    let mut m = Menu::new("Root", 0u32);
    m.add_checkbox("A", 1);
    m.add_section("S1", 2);
    m.add_section("S2", 3);
    m.add_checkbox("B", 4);
    m.add_section("S3", 5);
    let moves = [true, true, false, true, true, false, false, false, true];
    for down in moves {
        if down {
            m.navigate_down();
        } else {
            m.navigate_up();
        }
        let h = m.highlighted_item();
        assert!(!m.item(h).is_section(), "rested on section at {}", h);
    }
}

#[test]
fn select_on_empty_menu_returns_none() {
    let mut m: Menu<u32> = Menu::new("Root", 0);
    assert_eq!(m.item_count(), 0);
    assert_eq!(m.select_item(), None);
    m.navigate_down();
    m.navigate_up();
    assert_eq!(m.select_item(), None);
}

#[test]
fn select_reports_each_kind() {
    let options = ["a", "b"];
    let mut m = Menu::new("Root", 0u32);
    m.add_checkbox("C", 1);
    m.add_selector("S", 2, &options, None);
    m.add_action("A", 3);
    m.add_exit("E", 4);
    assert_eq!(m.select_item(), Some(SelectedData::Checkbox { id: 1, state: true }));
    assert_eq!(m.item(0).display_string(), "[X]");
    m.navigate_down();
    assert_eq!(m.select_item(), Some(SelectedData::MultiOption { id: 2, option_id: 1 }));
    m.navigate_down();
    assert_eq!(m.select_item(), Some(SelectedData::Action { id: 3 }));
    m.navigate_down();
    assert_eq!(m.select_item(), Some(SelectedData::Exit { id: 4 }));
    assert_eq!(m.item_count(), 4);
    assert_eq!(m.highlighted_item(), 3);
}

fn menu_with_submenu() -> Menu<'static, u32> {
    let mut root = Menu::new("Root", 0u32);
    root.add_checkbox("R1", 1);
    let mut sub = Menu::new("Sub", 10);
    sub.add_back("Back", 11);
    sub.add_checkbox("S1", 12);
    sub.add_checkbox("S2", 13);
    root.add_submenu(sub);
    root.add_action("R3", 3);
    root
}

#[test]
fn descend_then_back_restores_item_count() {
    let mut m = menu_with_submenu();
    assert_eq!(m.item_count(), 3);
    m.navigate_down();
    assert_eq!(m.select_item(), Some(SelectedData::Submenu { id: 10 }));
    assert_eq!(m.heading(), "Sub");
    assert_eq!(m.item_count(), 3);
    assert_eq!(m.highlighted_item(), 0);
    assert_eq!(m.select_item(), Some(SelectedData::Back { id: 11 }));
    assert_eq!(m.heading(), "Root");
    assert_eq!(m.item_count(), 3);
    assert_eq!(m.highlighted_item(), 0);
}

#[test]
fn submenu_state_is_kept_across_visits() {
    let mut m = menu_with_submenu();
    m.navigate_down();
    m.select_item();
    m.navigate_down();
    assert_eq!(m.select_item(), Some(SelectedData::Checkbox { id: 12, state: true }));
    m.navigate_up();
    m.select_item();
    m.navigate_down();
    m.select_item();
    assert_eq!(m.item(1).display_string(), "[X]");
}

#[test]
fn back_at_root_resets_cursor() {
    let mut m = Menu::new("Root", 0u32);
    m.add_checkbox("A", 1);
    m.add_back("Back", 2);
    m.navigate_down();
    assert_eq!(m.select_item(), Some(SelectedData::Back { id: 2 }));
    assert_eq!(m.heading(), "Root");
    assert_eq!(m.highlighted_item(), 0);
    assert_eq!(m.item_count(), 2);
}

#[test]
fn nested_submenus_return_one_level_at_a_time() {
    let mut inner = Menu::new("Inner", 20u32);
    inner.add_back("Back", 21);
    let mut middle = Menu::new("Middle", 10u32);
    middle.add_back("Back", 11);
    middle.add_submenu(inner);
    let mut root = Menu::new("Root", 0u32);
    root.add_submenu(middle);
    assert_eq!(root.select_item(), Some(SelectedData::Submenu { id: 10 }));
    root.navigate_down();
    assert_eq!(root.select_item(), Some(SelectedData::Submenu { id: 20 }));
    assert_eq!(root.heading(), "Inner");
    assert_eq!(root.select_item(), Some(SelectedData::Back { id: 21 }));
    assert_eq!(root.heading(), "Middle");
    assert_eq!(root.item_count(), 2);
    assert_eq!(root.select_item(), Some(SelectedData::Back { id: 11 }));
    assert_eq!(root.heading(), "Root");
    assert_eq!(root.item_count(), 1);
}

#[test]
fn viewport_last_entry_keeps_one_of_context() {
    let sections = vec![false; 10];
    let heights = vec![10u32; 10];
    let w = viewport_window(&sections, &heights, 9, 40);
    assert_eq!(w.skip, 8);
    assert_eq!(w.shown, 2);
    assert_eq!(w.highlighted, 9);
}

#[test]
fn viewport_middle_and_first_entries() {
    let sections = vec![false; 10];
    let heights = vec![10u32; 10];
    let w = viewport_window(&sections, &heights, 5, 40);
    assert_eq!((w.skip, w.shown, w.highlighted), (4, 4, 5));
    let w = viewport_window(&sections, &heights, 0, 40);
    assert_eq!((w.skip, w.shown, w.highlighted), (0, 4, 0));
    let w = viewport_window(&sections, &heights, 1, 35);
    assert_eq!((w.skip, w.shown, w.highlighted), (0, 3, 1));
}

#[test]
fn viewport_short_menu_shows_everything() {
    let sections = vec![false; 3];
    let heights = vec![10u32, 12, 9];
    let w = viewport_window(&sections, &heights, 1, 100);
    assert_eq!((w.skip, w.shown, w.highlighted), (0, 3, 1));
    let w = viewport_window(&sections, &heights, 2, 100);
    assert_eq!((w.skip, w.shown, w.highlighted), (1, 2, 2));
}

#[test]
fn viewport_leading_sections_move_highlight() {
    let sections = vec![true, true, false, false];
    let heights = vec![10u32; 4];
    let w = viewport_window(&sections, &heights, 0, 40);
    assert_eq!((w.skip, w.shown, w.highlighted), (1, 3, 2));
}

#[test]
fn viewport_partial_entry_is_not_drawn() {
    let sections = vec![false; 4];
    let heights = vec![10u32, 10, 25, 10];
    let w = viewport_window(&sections, &heights, 0, 40);
    assert_eq!((w.skip, w.shown), (0, 2));
    let w = viewport_window(&sections, &heights, 0, 0);
    assert_eq!((w.skip, w.shown), (0, 0));
}

#[test]
fn viewport_empty_level() {
    let w = viewport_window(&Vec::new(), &Vec::new(), 0, 40);
    assert_eq!((w.skip, w.shown, w.highlighted), (0, 0, 0));
}

#[test]
fn menu_viewport_uses_active_level() {
    let mut m = Menu::new("Root", 0u32);
    for i in 0..10u32 {
        m.add_action("Item", i + 1);
    }
    for _ in 0..9 {
        m.navigate_down();
    }
    assert_eq!(m.highlighted_item(), 9);
    let heights = vec![10u32; 10];
    let w = m.viewport(&heights, 40);
    assert_eq!((w.skip, w.shown, w.highlighted), (8, 2, 9));
}

#[test]
fn item_labels_and_ids() {
    let mut m = Menu::new("Root", 0u32);
    m.add_section("Heading", 5);
    m.add_exit("Quit", 6);
    match m.item(0) {
        MenuItems::Section(s) => {
            assert_eq!(s.label(), "Heading");
            assert_eq!(s.id(), 5);
        }
        other => panic!("unexpected {:?}", other),
    }
    assert_eq!(m.item(1).label(), "Quit");
    assert_eq!(m.item(1).id(), 6);
    assert_eq!(m.item(1).display_string(), "Quit");
}

#[test]
fn select_changes_only_the_highlighted_entry() {
    let options = ["a", "b", "c"];
    let mut m = Menu::new("Root", 0u32);
    m.add_checkbox("C1", 1);
    m.add_selector("S", 2, &options, Some(2));
    m.add_checkbox("C2", 3);
    m.navigate_down();
    assert_eq!(m.select_item(), Some(SelectedData::MultiOption { id: 2, option_id: 0 }));
    assert_eq!(m.item(1).display_string(), "a");
    assert_eq!(m.item(1).label(), "S");
    assert_eq!(m.item(1).id(), 2);
    m.navigate_down();
    assert_eq!(m.select_item(), Some(SelectedData::Checkbox { id: 3, state: true }));
    assert_eq!(m.item(0).display_string(), "[ ]");
    assert_eq!(m.item(1).display_string(), "a");
    assert_eq!(m.item(2).display_string(), "[X]");
    assert_eq!(m.highlighted_item(), 2);
    assert_eq!(m.item_count(), 3);
}
