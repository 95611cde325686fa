use orca_shell::actions::ActionHandler;
use orca_shell::actions::ActionTable;
use orca_shell::application::OrcaApplication;
use orca_shell::lifecycle::step;
use orca_shell::lifecycle::Lifecycle;
use orca_shell::lifecycle::LifecycleEvent;
use orca_shell::window::OrcaWindow;
use orca_shell::window::WindowManager;

fn running_app() -> OrcaApplication {
    OrcaApplication::new(String::from("com.example.app"), 0)
}

#[test]
fn concrete_launch_scenario() {
    let mut app = running_app();
    assert_eq!(app.state, Lifecycle::Running);
    assert_eq!(app.active_window(), None);

    let first = app.activate();
    assert_eq!(app.windows.created, 1);
    let w = app.windows.window.clone().unwrap();
    assert_eq!(w.id, first);
    assert!(w.visible);
    assert!(w.focused);
    assert_eq!(app.active_window(), Some(first));

    let second = app.activate();
    assert_eq!(second, first);
    assert_eq!(app.windows.created, 1);

    let before_about = app.clone();
    let dialog = app.show_about();
    assert_eq!(dialog.parent, first);
    assert!(dialog.modal);
    assert_eq!(dialog.program_name, "orca");
    assert_eq!(dialog.version, "0.1.0");
    assert_eq!(dialog.authors, vec![String::from("William Roy")]);
    drop(dialog);
    assert_eq!(app, before_about);

    app.quit();
    assert_eq!(app.state, Lifecycle::Terminating);
}

#[test]
fn singleton_window_many_activations() {
    let mut app = running_app();
    let first = app.activate();
    for _ in 0..5 {
        let id = app.activate();
        assert_eq!(id, first);
        assert_eq!(app.windows.created, 1);
    }
}

#[test]
fn action_registration_completeness() {
    let app = running_app();
    let entries = &app.actions.entries;
    assert_eq!(entries.len(), 2);
    assert_eq!(entries[0].name, "quit");
    assert_eq!(entries[0].handler, ActionHandler::Quit);
    assert_eq!(entries[0].accels, vec![String::from("<primary>q")]);
    assert_eq!(entries[1].name, "about");
    assert_eq!(entries[1].handler, ActionHandler::About);
    assert_eq!(entries[1].accels, Vec::<String>::new());
}

#[test]
fn handler_lookup() {
    let app = running_app();
    assert_eq!(
        app.actions.handler_for(&String::from("quit")),
        Some(ActionHandler::Quit)
    );
    assert_eq!(
        app.actions.handler_for(&String::from("about")),
        Some(ActionHandler::About)
    );
    assert_eq!(app.actions.handler_for(&String::from("missing")), None);
}

#[test]
fn accelerator_rebinding_replaces() {
    let mut table = ActionTable::new();
    table.add_action(String::from("quit"), ActionHandler::Quit);
    table.set_accels_for_action(&String::from("quit"), vec![String::from("<primary>q")]);
    assert_eq!(table.entries[0].accels, vec![String::from("<primary>q")]);
    table.set_accels_for_action(&String::from("quit"), vec![String::from("<primary>w")]);
    assert_eq!(table.entries[0].accels, vec![String::from("<primary>w")]);
}

#[test]
fn presentation_is_idempotent() {
    let mut app = running_app();
    app.activate();
    let presented = app.clone();
    app.windows.present();
    assert_eq!(app, presented);
}

#[test]
fn window_starts_hidden_until_presented() {
    let mut wm = WindowManager::new();
    assert_eq!(wm.created, 0);
    let id = wm.get_or_create(&String::from("com.example.app"));
    assert_eq!(wm.created, 1);
    let w = wm.window.clone().unwrap();
    assert_eq!(w.id, id);
    assert_eq!(w.owner, "com.example.app");
    assert!(!w.visible);
    assert!(!w.focused);
    wm.present();
    let w = wm.window.clone().unwrap();
    assert!(w.visible);
    assert!(w.focused);
}

#[test]
fn get_or_create_reuses_the_window() {
    let mut wm = WindowManager::new();
    let owner = String::from("com.example.app");
    let first = wm.get_or_create(&owner);
    let second = wm.get_or_create(&owner);
    assert_eq!(second, first);
    assert_eq!(wm.created, 1);
}

#[test]
fn new_window_fields() {
    let w = OrcaWindow::new(String::from("com.example.app"), 7);
    assert_eq!(w.id, 7);
    assert_eq!(w.owner, "com.example.app");
    assert!(!w.visible);
    assert!(!w.focused);
}

#[test]
fn quit_terminates_running_application() {
    let mut app = running_app();
    app.activate();
    app.quit();
    assert_eq!(app.state, Lifecycle::Terminating);
}

#[test]
fn about_parented_to_active_window() {
    let mut app = running_app();
    let id = app.activate();
    let dialog = app.show_about();
    assert_eq!(dialog.parent, id);
    assert!(dialog.modal);
    assert_eq!(app.active_window(), Some(id));
}

#[test]
fn lifecycle_transitions() {
    assert_eq!(
        step(Lifecycle::Uninitialized, LifecycleEvent::RegistrationCompleted),
        Lifecycle::Running
    );
    assert_eq!(
        step(Lifecycle::Running, LifecycleEvent::Activated),
        Lifecycle::Running
    );
    assert_eq!(
        step(Lifecycle::Running, LifecycleEvent::QuitRequested),
        Lifecycle::Terminating
    );
    assert_eq!(
        step(Lifecycle::Running, LifecycleEvent::AllWindowsClosed),
        Lifecycle::Terminating
    );
    assert_eq!(
        step(Lifecycle::Uninitialized, LifecycleEvent::Activated),
        Lifecycle::Uninitialized
    );
}

#[test]
fn terminating_is_absorbing() {
    let events = [
        LifecycleEvent::RegistrationCompleted,
        LifecycleEvent::Activated,
        LifecycleEvent::QuitRequested,
        LifecycleEvent::AllWindowsClosed,
    ];
    for e in events {
        assert_eq!(step(Lifecycle::Terminating, e), Lifecycle::Terminating);
    }
}

#[test]
fn identity_constants() {
    assert_eq!(orca_shell::config::program_name(), "orca");
    assert_eq!(orca_shell::config::version(), "0.1.0");
    assert_eq!(orca_shell::config::author(), "William Roy");
}

#[test]
fn flags_and_identifier_are_stored() {
    let app = OrcaApplication::new(String::from("com.github.wroyca.orca"), 4);
    assert_eq!(app.application_id, "com.github.wroyca.orca");
    assert_eq!(app.flags, 4);
}
