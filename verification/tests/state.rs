use egui_experiments::state::{Pane, TemplateApp, UiCommand, UiEvent};

#[test]
fn default_state() {
    let s = TemplateApp::default();
    assert_eq!(s.setting1, "customizable value");
    assert_eq!(s.setting2, "customizable value");
    assert_eq!(s.setting3, "customizable value");
    assert_eq!(s.slider_value, 50);
    assert!(s.welcome_window_open);
    assert!(!s.connect_window_open);
    assert!(!s.alert_window_open);
    assert!(s.right_panel_open);
    assert!(!s.left_panel_open);
    assert!(!s.style_window_open);
}

#[test]
fn is_open_reports_each_flag() {
    let s = TemplateApp::default();
    assert!(s.is_open(Pane::WelcomeWindow));
    assert!(!s.is_open(Pane::ConnectWindow));
    assert!(!s.is_open(Pane::AlertWindow));
    assert!(s.is_open(Pane::RightPanel));
    assert!(!s.is_open(Pane::LeftPanel));
    assert!(!s.is_open(Pane::StyleWindow));
}

#[test]
fn right_panel_toggles() {
    let mut s = TemplateApp::default();
    assert!(s.right_panel_open);
    let c = s.handle_event(UiEvent::ViewRightPanel);
    assert_eq!(c, UiCommand::Nothing);
    assert!(!s.right_panel_open);
    let c = s.handle_event(UiEvent::ViewRightPanel);
    assert_eq!(c, UiCommand::Nothing);
    assert!(s.right_panel_open);
}

#[test]
fn left_panel_toggles() {
    let mut s = TemplateApp::default();
    assert!(!s.left_panel_open);
    s.handle_event(UiEvent::ViewLeftPanel);
    assert!(s.left_panel_open);
    s.handle_event(UiEvent::ViewLeftPanel);
    assert!(!s.left_panel_open);
}

#[test]
fn style_settings_opens_window_and_closes_menu() {
    let mut s = TemplateApp::default();
    let c = s.handle_event(UiEvent::ViewStyleSettings);
    assert_eq!(c, UiCommand::CloseMenu);
    assert!(s.style_window_open);
    // A second click keeps it open.
    let c = s.handle_event(UiEvent::ViewStyleSettings);
    assert_eq!(c, UiCommand::CloseMenu);
    assert!(s.style_window_open);
}

#[test]
fn welcome_message_reopens_window() {
    let mut s = TemplateApp::default();
    s.welcome_window_open = false;
    let c = s.handle_event(UiEvent::MenuWelcomeMessage);
    assert_eq!(c, UiCommand::CloseMenu);
    assert!(s.welcome_window_open);
}

#[test]
fn connect_button_opens_both_windows() {
    let mut s = TemplateApp::default();
    let c = s.handle_event(UiEvent::ConnectButton);
    assert_eq!(c, UiCommand::Nothing);
    assert!(s.connect_window_open);
    assert!(s.alert_window_open);
}

#[test]
fn quit_asks_to_close_the_frame() {
    let mut s = TemplateApp::default();
    let c = s.handle_event(UiEvent::FileQuit);
    assert_eq!(c, UiCommand::CloseFrame);
    // The state itself is untouched.
    assert!(s.welcome_window_open);
    assert!(s.right_panel_open);
    assert!(!s.left_panel_open);
}

#[test]
fn help_button_does_nothing() {
    let mut s = TemplateApp::default();
    let c = s.handle_event(UiEvent::HelpButton);
    assert_eq!(c, UiCommand::Nothing);
    assert_eq!(s.slider_value, 50);
    assert!(!s.style_window_open);
}

#[test]
fn events_keep_settings_and_slider() {
    let mut s = TemplateApp::default();
    s.setting1 = "one".to_owned();
    s.setting2 = "two".to_owned();
    s.setting3 = "three".to_owned();
    s.slider_value = 7;
    for e in [
        UiEvent::FileQuit,
        UiEvent::ViewRightPanel,
        UiEvent::ViewLeftPanel,
        UiEvent::ViewStyleSettings,
        UiEvent::MenuWelcomeMessage,
        UiEvent::ConnectButton,
        UiEvent::HelpButton,
    ] {
        s.handle_event(e);
        assert_eq!(s.setting1, "one");
        assert_eq!(s.setting2, "two");
        assert_eq!(s.setting3, "three");
        assert_eq!(s.slider_value, 7);
    }
}
