use focu::tray::{
    dock_steps, launch_commands, onboarding_completed_commands, open_main_commands, DockStep,
    TrayWindow, UiCommand, WindowId,
};

#[test]
fn focus_lost_hides_visible_window() {
    let mut w = TrayWindow::new(WindowId::Tray);
    w.activate();
    assert!(w.visible);
    assert_eq!(w.focus_lost(), vec![UiCommand::Hide(WindowId::Tray)]);
    assert!(!w.visible);
}

#[test]
fn focus_lost_on_hidden_window_is_noop() {
    let mut w = TrayWindow::new(WindowId::Tray);
    assert_eq!(w.focus_lost(), Vec::<UiCommand>::new());
    assert!(!w.visible);
    assert_eq!(w, TrayWindow::new(WindowId::Tray));
}

#[test]
fn activation_toggles() {
    let mut w = TrayWindow::new(WindowId::Tray);
    assert_eq!(
        w.activate(),
        vec![
            UiCommand::MoveToTrayAnchor(WindowId::Tray),
            UiCommand::Show(WindowId::Tray),
            UiCommand::Focus(WindowId::Tray)
        ]
    );
    assert!(w.visible);
    assert_eq!(w.activate(), vec![UiCommand::Hide(WindowId::Tray)]);
    assert!(!w.visible);
}

#[test]
fn onboarding_window_follows_same_rules() {
    let mut w = TrayWindow::new(WindowId::Onboarding);
    w.activate();
    assert_eq!(w.focus_lost(), vec![UiCommand::Hide(WindowId::Onboarding)]);
}

#[test]
fn open_main_shows_and_focuses() {
    assert_eq!(
        open_main_commands(),
        vec![
            UiCommand::Show(WindowId::Main),
            UiCommand::Focus(WindowId::Main),
            UiCommand::ShowInDock
        ]
    );
}

#[test]
fn launch_gates_on_onboarding() {
    assert_eq!(
        launch_commands(true),
        vec![UiCommand::Show(WindowId::Main), UiCommand::ShowInDock]
    );
    assert_eq!(
        launch_commands(false),
        vec![
            UiCommand::Hide(WindowId::Main),
            UiCommand::Show(WindowId::Onboarding),
            UiCommand::Focus(WindowId::Onboarding)
        ]
    );
}

#[test]
fn completing_onboarding_opens_main() {
    assert_eq!(
        onboarding_completed_commands(),
        vec![
            UiCommand::Close(WindowId::Onboarding),
            UiCommand::Show(WindowId::Main),
            UiCommand::ShowInDock
        ]
    );
}

#[test]
fn dock_steps_for_both_states() {
    assert_eq!(
        dock_steps(true),
        vec![
            DockStep::LoadIcon,
            DockStep::RegularPolicy,
            DockStep::Activate,
            DockStep::RefreshDock
        ]
    );
    assert_eq!(
        dock_steps(false),
        vec![DockStep::AccessoryPolicy, DockStep::RefreshDock]
    );
}
