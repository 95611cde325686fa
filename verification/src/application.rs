use vstd::prelude::*;

use crate::actions::ActionHandler;
use crate::actions::ActionTable;
use crate::lifecycle::Lifecycle;
use crate::lifecycle::LifecycleEvent;
use crate::lifecycle::spec_step;
use crate::lifecycle::step;
use crate::window::WindowManager;

verus! {

/// The ephemeral state of one invocation of the `about` action: a modal
/// dialog parented to the active window, populated with the static
/// identity fields. It is fire-and-forget: dismissal is handled entirely
/// by the presentation layer and changes nothing in the application.
#[derive(Clone, Debug, PartialEq, Eq)]
pub struct AboutDialogState {
    /// Handle of the window the dialog is transient for.
    pub parent: u64,
    /// The dialog is modal with respect to its parent window.
    pub modal: bool,
    /// Human-readable program name.
    pub program_name: String,
    /// Version string.
    pub version: String,
    /// Author list.
    pub authors: Vec<String>,
}

/// Exactly the action table an application holds right after
/// construction: the `quit` action bound to the `<primary>q` accelerator
/// and the `about` action with no accelerator, and nothing else.
pub open spec fn registered_exactly_quit_about(t: ActionTable) -> bool {
    &&& t.wf()
    &&& t.entries@.len() == 2
    &&& t.entries@[0].name@ == "quit"@
    &&& t.entries@[0].handler == ActionHandler::Quit
    &&& t.entries@[0].accels@.len() == 1
    &&& t.entries@[0].accels@[0]@ == "<primary>q"@
    &&& t.entries@[1].name@ == "about"@
    &&& t.entries@[1].handler == ActionHandler::About
    &&& t.entries@[1].accels@.len() == 0
}

/// Process-wide application shell.
///
/// Owns the identity string and startup flags (both immutable after
/// construction), the registered-actions table with its accelerator
/// bindings, the window manager, and the lifecycle state. The hosting
/// event loop constructs exactly one instance per process; constructing a
/// second one in the same process is a caller error, mirroring the
/// windowing runtime's own singleton assumption.
#[derive(Clone, Debug, PartialEq, Eq)]
pub struct OrcaApplication {
    /// Application identifier (reverse-DNS style), immutable.
    pub application_id: String,
    /// Startup flag bitset, immutable.
    pub flags: u32,
    /// Registered global actions and their accelerators.
    pub actions: ActionTable,
    /// Owner of the singleton main window.
    pub windows: WindowManager,
    /// Current lifecycle state.
    pub state: Lifecycle,
}

impl OrcaApplication {
    /// Application invariant: the action table has unique names, the
    /// window manager holds at most one window, any live window is owned
    /// by this application, and construction has completed.
    pub open spec fn wf(self) -> bool {
        &&& self.actions.wf()
        &&& self.windows.wf()
        &&& (self.windows.window matches Some(w) ==> w.owner == self.application_id)
        &&& self.state != Lifecycle::Uninitialized
    }

    /// Construct the application shell. Registers the `quit` action with
    /// its `<primary>q` accelerator and the `about` action, in that
    /// order, before the caller enters the event loop, and completes the
    /// transition to `Running`. No window exists yet.
    pub fn new(application_id: String, flags: u32) -> (app: OrcaApplication)
        ensures
            app.wf(),
            app.state == Lifecycle::Running,
            app.application_id == application_id,
            app.flags == flags,
            app.windows.window is None,
            app.windows.created == 0,
            registered_exactly_quit_about(app.actions),
    {
        let mut app = OrcaApplication {
            application_id,
            flags,
            actions: ActionTable::new(),
            windows: WindowManager::new(),
            state: Lifecycle::Uninitialized,
        };
        app.constructed();
        app
    }

    /// Runs once as the tail of construction: registers both global
    /// actions, binds the quit accelerator, and completes the
    /// `Uninitialized -> Running` transition. Both registrations finish
    /// before the event loop can dispatch anything.
    fn constructed(&mut self)
        requires
            old(self).state == Lifecycle::Uninitialized,
            old(self).actions.wf(),
            old(self).actions.entries@.len() == 0,
        ensures
            final(self).state == spec_step(
                Lifecycle::Uninitialized,
                LifecycleEvent::RegistrationCompleted,
            ),
            registered_exactly_quit_about(final(self).actions),
            final(self).application_id == old(self).application_id,
            final(self).flags == old(self).flags,
            final(self).windows == old(self).windows,
    {
        self.setup_gactions();
        let quit_name = "quit".to_owned();
        let mut accels: Vec<String> = Vec::new();
        accels.push("<primary>q".to_owned());
        proof {
            reveal_strlit("quit");
            reveal_strlit("about");
            assert(self.actions.contains_name(quit_name@)) by {
                assert(self.actions.entries@[0].name@ == quit_name@);
            }
        }
        self.actions.set_accels_for_action(&quit_name, accels);
        self.state = step(self.state, LifecycleEvent::RegistrationCompleted);
    }

    /// Create the two global actions and register them, `quit` first,
    /// then `about`; accelerators are bound separately.
    fn setup_gactions(&mut self)
        requires
            old(self).actions.wf(),
            old(self).actions.entries@.len() == 0,
        ensures
            final(self).actions.wf(),
            final(self).actions.entries@.len() == 2,
            final(self).actions.entries@[0].name@ == "quit"@,
            final(self).actions.entries@[0].handler == ActionHandler::Quit,
            final(self).actions.entries@[0].accels@.len() == 0,
            final(self).actions.entries@[1].name@ == "about"@,
            final(self).actions.entries@[1].handler == ActionHandler::About,
            final(self).actions.entries@[1].accels@.len() == 0,
            final(self).application_id == old(self).application_id,
            final(self).flags == old(self).flags,
            final(self).windows == old(self).windows,
            final(self).state == old(self).state,
    {
        let quit_name = "quit".to_owned();
        let about_name = "about".to_owned();
        self.actions.add_action(quit_name, ActionHandler::Quit);
        proof {
            reveal_strlit("quit");
            reveal_strlit("about");
            assert("quit"@.len() == 4);
            assert("about"@.len() == 5);
            assert(forall|i: int|
                0 <= i < self.actions.entries@.len() ==> self.actions.entries@[i].name@
                    != about_name@);
        }
        self.actions.add_action(about_name, ActionHandler::About);
    }

    /// The application after one activation: the window manager holds the
    /// window (created now if none existed) and has presented it; nothing
    /// else changes.
    pub open spec fn spec_activate(self) -> OrcaApplication {
        OrcaApplication {
            windows: self.windows.spec_get_or_create(self.application_id).spec_present(),
            ..self
        }
    }

    /// Handle one activation event: obtain the singleton window from the
    /// window manager (creating it on the first activation only) and
    /// present it. Safe to call arbitrarily many times; every call
    /// converges on the same single window, whose handle it returns.
    pub fn activate(&mut self) -> (id: u64)
        requires
            old(self).wf(),
            old(self).state == Lifecycle::Running,
        ensures
            *final(self) == old(self).spec_activate(),
            final(self).wf(),
            final(self).state == Lifecycle::Running,
            final(self).windows.window is Some,
            id == final(self).windows.window->0.id,
            final(self).windows.window->0.visible,
            final(self).windows.window->0.focused,
            old(self).windows.window is Some ==> final(self).windows.created == old(
                self,
            ).windows.created && final(self).windows.window->0.id == old(
                self,
            ).windows.window->0.id,
            old(self).windows.window is None ==> final(self).windows.created == old(
                self,
            ).windows.created + 1,
    {
        let owner = self.application_id.clone();
        let id = self.windows.get_or_create(&owner);
        self.windows.present();
        self.state = step(self.state, LifecycleEvent::Activated);
        id
    }

    /// Handle the `quit` action: terminate the event loop. The lifecycle
    /// moves from `Running` to the absorbing `Terminating` state; nothing
    /// else changes. The hosting runtime then exits the process with the
    /// event loop's own result as the exit code.
    pub fn quit(&mut self)
        requires
            old(self).wf(),
            old(self).state == Lifecycle::Running,
        ensures
            *final(self) == (OrcaApplication { state: Lifecycle::Terminating, ..*old(self) }),
            final(self).state == spec_step(old(self).state, LifecycleEvent::QuitRequested),
            final(self).wf(),
    {
        self.state = step(self.state, LifecycleEvent::QuitRequested);
    }

    /// Handle the `about` action: build the state of one modal about
    /// dialog parented to the active window and populated with the static
    /// identity fields. An active window must exist; the action is only
    /// reachable through UI already anchored to one, so invoking it
    /// without a window is a caller error. Takes the application by
    /// shared reference: dismissal of the dialog changes nothing here.
    pub fn show_about(&self) -> (d: AboutDialogState)
        requires
            self.wf(),
            self.state == Lifecycle::Running,
            self.windows.window is Some,
        ensures
            d.parent == self.windows.window->0.id,
            d.modal,
            d.program_name@ == "orca"@,
            d.version@ == "0.1.0"@,
            d.authors@.len() == 1,
            d.authors@[0]@ == "William Roy"@,
    {
        let parent = match &self.windows.window {
            Some(w) => w.id,
            None => 0,
        };
        let mut authors: Vec<String> = Vec::new();
        authors.push(crate::config::author().to_owned());
        AboutDialogState {
            parent,
            modal: true,
            program_name: crate::config::program_name().to_owned(),
            version: crate::config::version().to_owned(),
            authors,
        }
    }

    /// Handle of the currently active window, or `None` before the first
    /// activation has created one.
    pub fn active_window(&self) -> (r: Option<u64>)
        ensures
            match r {
                Some(id) => self.windows.window is Some && id == self.windows.window->0.id,
                None => self.windows.window is None,
            },
    {
        match &self.windows.window {
            Some(w) => Some(w.id),
            None => None,
        }
    }
}

/// The application after `n` consecutive activations.
pub open spec fn spec_activate_n(app: OrcaApplication, n: nat) -> OrcaApplication
    decreases n,
{
    if n == 0 {
        app
    } else {
        spec_activate_n(app, (n - 1) as nat).spec_activate()
    }
}

/// One activation preserves the application invariant, keeps it running,
/// leaves a live presented window behind, and never replaces or
/// duplicates an existing window.
pub proof fn lemma_activate_preserves(app: OrcaApplication)
    requires
        app.wf(),
        app.state == Lifecycle::Running,
    ensures
        app.spec_activate().wf(),
        app.spec_activate().state == Lifecycle::Running,
        app.spec_activate().windows.window is Some,
        app.spec_activate().application_id == app.application_id,
        app.windows.window is Some ==> app.spec_activate().windows.window->0.id
            == app.windows.window->0.id && app.spec_activate().windows.created
            == app.windows.created,
        app.windows.window is None ==> app.spec_activate().windows.created == app.windows.created
            + 1,
{
}

/// Law: singleton window. From a running application that has not yet
/// created a window, any sequence of `n >= 1` activations constructs
/// exactly one window, and every activation in the sequence presents that
/// same window: its handle always equals the handle the first activation
/// returned.
pub proof fn lemma_singleton_window(app: OrcaApplication, n: nat)
    requires
        app.wf(),
        app.state == Lifecycle::Running,
        app.windows.window is None,
        n >= 1,
    ensures
        spec_activate_n(app, n).wf(),
        spec_activate_n(app, n).state == Lifecycle::Running,
        spec_activate_n(app, n).windows.created == 1,
        spec_activate_n(app, n).windows.window is Some,
        spec_activate_n(app, n).windows.window->0.id == app.spec_activate().windows.window->0.id,
    decreases n,
{
    if n == 1 {
        lemma_activate_preserves(app);
    } else {
        lemma_singleton_window(app, (n - 1) as nat);
        lemma_activate_preserves(spec_activate_n(app, (n - 1) as nat));
    }
}

} // verus!
