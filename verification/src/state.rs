//! The application's persistent state: visibility flags for the panels and
//! floating windows, three free-text settings, and a bounded slider value,
//! together with the state transitions that the menu and panel buttons
//! trigger.

use vstd::prelude::*;

verus! {

/// One panel or floating window whose visibility the state controls.
#[derive(Clone, Copy, Debug, PartialEq, Eq, Structural)]
pub enum Pane {
    WelcomeWindow,
    ConnectWindow,
    AlertWindow,
    RightPanel,
    LeftPanel,
    StyleWindow,
}

/// The application state.  Every field is plain data: the GUI layer reads
/// the flags to decide what to show and hands edits of the settings and the
/// slider straight back into the fields.
pub struct TemplateApp {
    pub setting1: String,
    pub setting2: String,
    pub setting3: String,
    pub slider_value: u8,
    pub welcome_window_open: bool,
    pub connect_window_open: bool,
    pub alert_window_open: bool,
    pub right_panel_open: bool,
    pub left_panel_open: bool,
    pub style_window_open: bool,
}

impl TemplateApp {
    /// The slider is edited through a widget whose range is 0 to 100.
    pub open spec fn wf(self) -> bool {
        self.slider_value <= 100
    }

    /// Which flag controls the visibility of which panel or window.
    pub open spec fn pane_open(self, p: Pane) -> bool {
        match p {
            Pane::WelcomeWindow => self.welcome_window_open,
            Pane::ConnectWindow => self.connect_window_open,
            Pane::AlertWindow => self.alert_window_open,
            Pane::RightPanel => self.right_panel_open,
            Pane::LeftPanel => self.left_panel_open,
            Pane::StyleWindow => self.style_window_open,
        }
    }

    /// Reports whether the given panel or window is currently shown.
    pub fn is_open(&self, p: Pane) -> (r: bool)
        ensures
            r == self.pane_open(p),
    {
        match p {
            Pane::WelcomeWindow => self.welcome_window_open,
            Pane::ConnectWindow => self.connect_window_open,
            Pane::AlertWindow => self.alert_window_open,
            Pane::RightPanel => self.right_panel_open,
            Pane::LeftPanel => self.left_panel_open,
            Pane::StyleWindow => self.style_window_open,
        }
    }
}

/// A click the GUI layer reports to the state: one variant per button
/// whose handler touches the state or the frame.
#[derive(Clone, Copy, Debug, PartialEq, Eq, Structural)]
pub enum UiEvent {
    /// "Quit" in the "File" menu.
    FileQuit,
    /// "Right Side Panel" in the "View" menu.
    ViewRightPanel,
    /// "Left Side Panel" in the "View" menu.
    ViewLeftPanel,
    /// "Style Settings" in the "View" menu.
    ViewStyleSettings,
    /// "Welcome Message" in the menu of the browser build.
    MenuWelcomeMessage,
    /// "Button" in the right side panel.
    ConnectButton,
    /// "Button" in the "Help" menu, which does nothing.
    HelpButton,
}

/// What the GUI layer must do after an event is handled, beyond showing
/// the new state.
#[derive(Clone, Copy, Debug, PartialEq, Eq, Structural)]
pub enum UiCommand {
    /// Nothing beyond redrawing.
    Nothing,
    /// Close the application window.
    CloseFrame,
    /// Close the menu the clicked button sat in.
    CloseMenu,
}

/// The frame action each event asks for: quitting closes the frame, and
/// the two buttons that open a window from a menu also close that menu.
pub open spec fn command_for(e: UiEvent) -> UiCommand {
    match e {
        UiEvent::FileQuit => UiCommand::CloseFrame,
        UiEvent::ViewStyleSettings => UiCommand::CloseMenu,
        UiEvent::MenuWelcomeMessage => UiCommand::CloseMenu,
        _ => UiCommand::Nothing,
    }
}

impl TemplateApp {
    /// The state after an event: the panel toggles flip their flag, the
    /// window openers set theirs, and every other field keeps its value.
    pub open spec fn next_state(self, e: UiEvent) -> TemplateApp {
        match e {
            UiEvent::FileQuit => self,
            UiEvent::ViewRightPanel => TemplateApp {
                right_panel_open: !self.right_panel_open,
                ..self
            },
            UiEvent::ViewLeftPanel => TemplateApp { left_panel_open: !self.left_panel_open, ..self },
            UiEvent::ViewStyleSettings => TemplateApp { style_window_open: true, ..self },
            UiEvent::MenuWelcomeMessage => TemplateApp { welcome_window_open: true, ..self },
            UiEvent::ConnectButton => TemplateApp {
                connect_window_open: true,
                alert_window_open: true,
                ..self
            },
            UiEvent::HelpButton => self,
        }
    }

    /// Applies one reported click to the state and says what the GUI layer
    /// must do next.
    pub fn handle_event(&mut self, e: UiEvent) -> (c: UiCommand)
        ensures
            *final(self) == old(self).next_state(e),
            c == command_for(e),
            old(self).wf() ==> final(self).wf(),
    {
        match e {
            UiEvent::FileQuit => UiCommand::CloseFrame,
            UiEvent::ViewRightPanel => {
                self.right_panel_open = !self.right_panel_open;
                UiCommand::Nothing
            },
            UiEvent::ViewLeftPanel => {
                self.left_panel_open = !self.left_panel_open;
                UiCommand::Nothing
            },
            UiEvent::ViewStyleSettings => {
                self.style_window_open = true;
                UiCommand::CloseMenu
            },
            UiEvent::MenuWelcomeMessage => {
                self.welcome_window_open = true;
                UiCommand::CloseMenu
            },
            UiEvent::ConnectButton => {
                self.connect_window_open = true;
                self.alert_window_open = true;
                UiCommand::Nothing
            },
            UiEvent::HelpButton => UiCommand::Nothing,
        }
    }
}

/// An event changes visibility flags only: the settings and the slider
/// keep their values.
pub proof fn lemma_event_keeps_settings(s: TemplateApp, e: UiEvent)
    ensures
        s.next_state(e).setting1 == s.setting1,
        s.next_state(e).setting2 == s.setting2,
        s.next_state(e).setting3 == s.setting3,
        s.next_state(e).slider_value == s.slider_value,
{
}

/// Toggling a side panel twice restores the whole state.
pub proof fn lemma_toggle_twice(s: TemplateApp, e: UiEvent)
    requires
        e == UiEvent::ViewRightPanel || e == UiEvent::ViewLeftPanel,
    ensures
        s.next_state(e).next_state(e) == s,
{
}

/// Opening a window that an earlier click already opened changes nothing
/// more.
pub proof fn lemma_open_idempotent(s: TemplateApp, e: UiEvent)
    requires
        e == UiEvent::ViewStyleSettings || e == UiEvent::MenuWelcomeMessage || e
            == UiEvent::ConnectButton,
    ensures
        s.next_state(e).next_state(e) == s.next_state(e),
{
}

impl Default for TemplateApp {
    /// The state a fresh session starts from: the welcome window and the
    /// right side panel are shown, everything else is hidden, and the
    /// settings carry placeholder text.
    fn default() -> (s: TemplateApp)
        ensures
            s.setting1@ == "customizable value"@,
            s.setting2@ == "customizable value"@,
            s.setting3@ == "customizable value"@,
            s.slider_value == 50,
            s.welcome_window_open,
            !s.connect_window_open,
            !s.alert_window_open,
            s.right_panel_open,
            !s.left_panel_open,
            !s.style_window_open,
            s.wf(),
    {
        TemplateApp {
            setting1: "customizable value".to_owned(),
            setting2: "customizable value".to_owned(),
            setting3: "customizable value".to_owned(),
            slider_value: 50u8,
            welcome_window_open: true,
            connect_window_open: false,
            alert_window_open: false,
            right_panel_open: true,
            left_panel_open: false,
            style_window_open: false,
        }
    }
}

} // verus!
