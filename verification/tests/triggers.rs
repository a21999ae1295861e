use tray_shell::event::{ButtonState, Event, MenuItem, MouseButton, TrayEvent};

#[test]
fn the_menu_lists_show_hide_quit() {
    assert_eq!(MenuItem::all(), [MenuItem::Show, MenuItem::Hide, MenuItem::Quit]);
}

#[test]
fn menu_items_have_stable_ids_and_labels() {
    assert_eq!(MenuItem::Show.id(), "show");
    assert_eq!(MenuItem::Hide.id(), "hide");
    assert_eq!(MenuItem::Quit.id(), "quit");
    assert_eq!(MenuItem::Show.label(), "Show");
    assert_eq!(MenuItem::Hide.label(), "Hide");
    assert_eq!(MenuItem::Quit.label(), "Quit");
}

#[test]
fn an_item_is_found_again_by_its_id() {
    for item in MenuItem::all() {
        assert_eq!(MenuItem::from_id(item.id()), Some(item));
    }
}

#[test]
fn ids_are_matched_to_the_letter() {
    for id in [
        "", "s", "sho", "shows", "show ", " show", "Show", "SHOW", "hid", "hide\n", "Hide",
        "quit\0", "Quit", "exit", "close", "sh\u{f6}w", "\u{ff53}how", "showhide",
    ] {
        assert_eq!(MenuItem::from_id(id), None, "{:?}", id);
        assert_eq!(Event::from_menu_id(id), None, "{:?}", id);
    }
}

#[test]
fn an_id_built_at_run_time_is_matched_like_a_literal() {
    let id = format!("{}{}", "qu", "it");
    assert_eq!(MenuItem::from_id(&id), Some(MenuItem::Quit));
    let longer = format!("{}!", id);
    assert_eq!(MenuItem::from_id(&longer), None);
}

#[test]
fn each_menu_item_stands_for_its_event() {
    assert_eq!(MenuItem::Show.event(), Event::Show);
    assert_eq!(MenuItem::Hide.event(), Event::Hide);
    assert_eq!(MenuItem::Quit.event(), Event::Quit);
    assert_eq!(Event::from_menu_id("show"), Some(Event::Show));
    assert_eq!(Event::from_menu_id("hide"), Some(Event::Hide));
    assert_eq!(Event::from_menu_id("quit"), Some(Event::Quit));
}

#[test]
fn only_releasing_the_left_button_on_the_tray_icon_shows() {
    for button in [MouseButton::Left, MouseButton::Right, MouseButton::Middle] {
        for state in [ButtonState::Up, ButtonState::Down] {
            let expected = if button == MouseButton::Left && state == ButtonState::Up {
                Some(Event::Show)
            } else {
                None
            };
            assert_eq!(TrayEvent::Click { button, state }.event(), expected);
        }
        assert_eq!(TrayEvent::DoubleClick { button }.event(), None);
    }
    assert_eq!(TrayEvent::Enter.event(), None);
    assert_eq!(TrayEvent::Move.event(), None);
    assert_eq!(TrayEvent::Leave.event(), None);
}
