//! Visibility of the application's windows: the tray-anchored popup that
//! toggles on activation and hides on focus loss, the main window, and the
//! onboarding gate. Every effect is a [`UiCommand`] for the host's window
//! system to carry out.
use vstd::prelude::*;

verus! {

/// The windows of the application.
#[derive(Clone, Copy, Debug, PartialEq, Eq, Structural)]
pub enum WindowId {
    Main,
    Onboarding,
    /// The popup anchored at the tray icon.
    Tray,
}

/// An effect on the window system.
#[derive(Clone, Copy, Debug, PartialEq, Eq, Structural)]
pub enum UiCommand {
    /// Move the window to its anchor point at the tray icon.
    MoveToTrayAnchor(WindowId),
    Show(WindowId),
    Hide(WindowId),
    Focus(WindowId),
    Close(WindowId),
    /// Make the application visible in the dock (see [`dock_steps`]).
    ShowInDock,
}

/// The steps that make the application visible in the dock, or not.
#[derive(Clone, Copy, Debug, PartialEq, Eq, Structural)]
pub enum DockStep {
    /// Set the application icon from its resource bundle.
    LoadIcon,
    /// Become a regular application, with a dock icon.
    RegularPolicy,
    /// Bring the application to the front.
    Activate,
    /// Become an accessory application, without a dock icon.
    AccessoryPolicy,
    /// Redraw the dock tile.
    RefreshDock,
}

/// Visibility of one tray-anchored window.
#[derive(Clone, Copy, Debug, PartialEq, Eq, Structural)]
pub struct TrayWindow {
    pub window: WindowId,
    pub visible: bool,
}

/// Effect of an activation (a click on the tray icon): a hidden window is
/// moved to its anchor, shown and focused; a visible one is hidden.
pub open spec fn activate_spec(w: TrayWindow) -> (TrayWindow, Seq<UiCommand>) {
    if w.visible {
        (TrayWindow { visible: false, ..w }, seq![UiCommand::Hide(w.window)])
    } else {
        (
            TrayWindow { visible: true, ..w },
            seq![
                UiCommand::MoveToTrayAnchor(w.window),
                UiCommand::Show(w.window),
                UiCommand::Focus(w.window),
            ],
        )
    }
}

/// Effect of a focus loss: a visible window is hidden; a hidden one stays as
/// it is, and nothing is emitted.
pub open spec fn focus_lost_spec(w: TrayWindow) -> (TrayWindow, Seq<UiCommand>) {
    if w.visible {
        (TrayWindow { visible: false, ..w }, seq![UiCommand::Hide(w.window)])
    } else {
        (w, Seq::empty())
    }
}

impl TrayWindow {
    /// A hidden tray-anchored window.
    pub fn new(window: WindowId) -> (r: TrayWindow)
        ensures
            r == (TrayWindow { window, visible: false }),
    {
        TrayWindow { window, visible: false }
    }

    /// Handles an activation of the window's tray icon.
    pub fn activate(&mut self) -> (cmds: Vec<UiCommand>)
        ensures
            (*final(self), cmds@) == activate_spec(*old(self)),
    {
        if self.visible {
            self.visible = false;
            vec![UiCommand::Hide(self.window)]
        } else {
            self.visible = true;
            vec![
                UiCommand::MoveToTrayAnchor(self.window),
                UiCommand::Show(self.window),
                UiCommand::Focus(self.window),
            ]
        }
    }

    /// Handles the window's loss of input focus: it always ends hidden.
    pub fn focus_lost(&mut self) -> (cmds: Vec<UiCommand>)
        ensures
            (*final(self), cmds@) == focus_lost_spec(*old(self)),
            !final(self).visible,
    {
        if self.visible {
            self.visible = false;
            vec![UiCommand::Hide(self.window)]
        } else {
            Vec::new()
        }
    }
}

/// A focus loss always leaves the window hidden; on a hidden window it is a
/// no-op that emits nothing; and a second focus loss changes nothing more.
pub proof fn lemma_focus_lost_hides(w: TrayWindow)
    ensures
        !focus_lost_spec(w).0.visible,
        w.visible ==> focus_lost_spec(w).1 == seq![UiCommand::Hide(w.window)],
        !w.visible ==> focus_lost_spec(w) == (w, Seq::<UiCommand>::empty()),
        focus_lost_spec(focus_lost_spec(w).0) == (focus_lost_spec(w).0, Seq::<UiCommand>::empty()),
{
}

/// The "open main" command: the main window is shown and focused, and the
/// application shows in the dock, whatever the tray popup's state.
pub fn open_main_commands() -> (cmds: Vec<UiCommand>)
    ensures
        cmds@ == seq![UiCommand::Show(WindowId::Main), UiCommand::Focus(WindowId::Main), UiCommand::ShowInDock],
{
    vec![UiCommand::Show(WindowId::Main), UiCommand::Focus(WindowId::Main), UiCommand::ShowInDock]
}

/// The windows at launch. Once onboarding is completed the main window shows,
/// with the dock icon; before, the main window is hidden and the onboarding
/// gate is shown and focused.
pub fn launch_commands(onboarding_completed: bool) -> (cmds: Vec<UiCommand>)
    ensures
        onboarding_completed ==> cmds@ == seq![UiCommand::Show(WindowId::Main), UiCommand::ShowInDock],
        !onboarding_completed ==> cmds@ == seq![
            UiCommand::Hide(WindowId::Main),
            UiCommand::Show(WindowId::Onboarding),
            UiCommand::Focus(WindowId::Onboarding),
        ],
{
    if onboarding_completed {
        vec![UiCommand::Show(WindowId::Main), UiCommand::ShowInDock]
    } else {
        vec![
            UiCommand::Hide(WindowId::Main),
            UiCommand::Show(WindowId::Onboarding),
            UiCommand::Focus(WindowId::Onboarding),
        ]
    }
}

/// The windows after the user finishes onboarding: the onboarding window
/// closes and the main window shows, with the dock icon.
pub fn onboarding_completed_commands() -> (cmds: Vec<UiCommand>)
    ensures
        cmds@ == seq![UiCommand::Close(WindowId::Onboarding), UiCommand::Show(WindowId::Main), UiCommand::ShowInDock],
{
    vec![UiCommand::Close(WindowId::Onboarding), UiCommand::Show(WindowId::Main), UiCommand::ShowInDock]
}

/// The steps that set the application's presence in the dock: shown, it
/// takes its icon, becomes a regular application and comes to the front;
/// hidden, it becomes an accessory. Either way the dock is redrawn last.
pub fn dock_steps(visible: bool) -> (steps: Vec<DockStep>)
    ensures
        visible ==> steps@ == seq![DockStep::LoadIcon, DockStep::RegularPolicy, DockStep::Activate, DockStep::RefreshDock],
        !visible ==> steps@ == seq![DockStep::AccessoryPolicy, DockStep::RefreshDock],
{
    if visible {
        vec![DockStep::LoadIcon, DockStep::RegularPolicy, DockStep::Activate, DockStep::RefreshDock]
    } else {
        vec![DockStep::AccessoryPolicy, DockStep::RefreshDock]
    }
}

} // verus!
