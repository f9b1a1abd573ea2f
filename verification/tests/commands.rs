use video_space::commands::{deep_link_outcome, open_in_browser_outcome};
use video_space::system_info::SystemInfo;
use video_space::tray::{menu_action, tray_action, TrayAction, TrayButton, TrayButtonState, TrayEvent};

#[test]
fn left_click_release_shows_the_window() {
    let e = TrayEvent::Click {
        button: TrayButton::LeftButton,
        state: TrayButtonState::Up,
    };
    assert_eq!(tray_action(&e), TrayAction::ShowMainWindow);
}

#[test]
fn right_click_release_pops_the_menu_up() {
    let e = TrayEvent::Click {
        button: TrayButton::RightButton,
        state: TrayButtonState::Up,
    };
    assert_eq!(tray_action(&e), TrayAction::ShowTrayMenu);
}

#[test]
fn button_presses_and_other_buttons_are_ignored() {
    let down = TrayEvent::Click {
        button: TrayButton::LeftButton,
        state: TrayButtonState::Down,
    };
    assert_eq!(tray_action(&down), TrayAction::Ignore);
    let middle = TrayEvent::Click {
        button: TrayButton::OtherButton,
        state: TrayButtonState::Up,
    };
    assert_eq!(tray_action(&middle), TrayAction::Ignore);
    assert_eq!(tray_action(&TrayEvent::Other), TrayAction::Ignore);
}

#[test]
fn menu_items_map_to_their_actions() {
    let show = TrayEvent::MenuItemClick {
        id: "show".to_string(),
    };
    assert_eq!(tray_action(&show), TrayAction::ShowMainWindow);
    let hide = TrayEvent::MenuItemClick {
        id: "hide".to_string(),
    };
    assert_eq!(tray_action(&hide), TrayAction::HideMainWindow);
    let quit = TrayEvent::MenuItemClick {
        id: "quit".to_string(),
    };
    assert_eq!(tray_action(&quit), TrayAction::Quit);
}

#[test]
fn unknown_menu_items_are_ignored() {
    assert_eq!(menu_action(&"settings".to_string()), TrayAction::Ignore);
    assert_eq!(menu_action(&"".to_string()), TrayAction::Ignore);
}

#[test]
fn browser_launch_success_passes_through() {
    assert_eq!(open_in_browser_outcome(Ok(())), Ok(()));
}

#[test]
fn browser_launch_failure_is_wrapped() {
    let r = open_in_browser_outcome(Err("no default browser".to_string()));
    assert_eq!(r, Err("cannot open browser: no default browser".to_string()));
}

#[test]
fn deep_links_are_always_accepted() {
    assert_eq!(
        deep_link_outcome(&"video-space://watch?id=42".to_string()),
        Ok(())
    );
    assert_eq!(deep_link_outcome(&"".to_string()), Ok(()));
}

#[test]
fn system_info_keeps_the_probed_values() {
    let info = SystemInfo::new(
        "linux".to_string(),
        "x86_64".to_string(),
        16_000_000_000,
        8_000_000_000,
        12,
        3600,
    );
    assert_eq!(info.os, "linux");
    assert_eq!(info.arch, "x86_64");
    assert_eq!(info.total_memory, 16_000_000_000);
    assert_eq!(info.available_memory, 8_000_000_000);
    assert_eq!(info.cpu_count, 12);
    assert_eq!(info.uptime, 3600);
}
