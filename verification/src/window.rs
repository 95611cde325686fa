use vstd::prelude::*;

verus! {

/// Model of the single top-level main window.
///
/// The window's visual definition and its widgets belong to the
/// presentation shell; this core tracks only what its invariants speak
/// of: which window this is (`id`), which application owns it (`owner`)
/// and its presentation state.
#[derive(Clone, Debug, PartialEq, Eq)]
pub struct OrcaWindow {
    /// Handle that distinguishes this window from every other one the
    /// manager ever constructs.
    pub id: u64,
    /// Identifier of the owning application.
    pub owner: String,
    /// Presentation state: the window was requested visible on screen.
    pub visible: bool,
    /// Presentation state: the window holds foreground focus.
    pub focused: bool,
}

impl OrcaWindow {
    /// A new window is parented to its owning application and starts
    /// hidden and unfocused; presentation is a separate request.
    pub fn new(application_id: String, id: u64) -> (w: OrcaWindow)
        ensures
            w == (OrcaWindow { id, owner: application_id, visible: false, focused: false }),
    {
        OrcaWindow { id, owner: application_id, visible: false, focused: false }
    }
}

/// Owns at most one live main window per running application.
///
/// The window is created lazily on the first activation request and
/// reused afterwards; the manager never constructs a second
/// concurrently-live window, which guards against duplicate top-level
/// windows from redundant activation events.
#[derive(Clone, Debug, PartialEq, Eq)]
pub struct WindowManager {
    /// The singleton window, once the first activation created it.
    pub window: Option<OrcaWindow>,
    /// How many windows this manager has ever constructed.
    pub created: u64,
}

impl WindowManager {
    /// Singleton invariant: a window exists exactly when one was
    /// constructed, and then exactly one ever was.
    pub open spec fn wf(self) -> bool {
        self.created == if self.window is Some {
            1u64
        } else {
            0u64
        }
    }

    /// A manager starts with no window.
    pub fn new() -> (wm: WindowManager)
        ensures
            wm.window is None,
            wm.created == 0,
            wm.wf(),
    {
        WindowManager { window: None, created: 0 }
    }

    /// The manager after one `get_or_create` request: unchanged when a
    /// window already exists, otherwise extended with the one new window.
    pub open spec fn spec_get_or_create(self, owner: String) -> WindowManager {
        if self.window is Some {
            self
        } else {
            WindowManager {
                window: Some(
                    OrcaWindow { id: self.created, owner, visible: false, focused: false },
                ),
                created: (self.created + 1) as u64,
            }
        }
    }

    /// Return the existing window's handle if the owner already has a
    /// live window; otherwise construct a new window parented to `owner`
    /// and return its handle. Never creates a second live window.
    pub fn get_or_create(&mut self, owner: &String) -> (id: u64)
        requires
            old(self).wf(),
        ensures
            *final(self) == old(self).spec_get_or_create(*owner),
            final(self).wf(),
            final(self).window is Some,
            id == final(self).window->0.id,
            old(self).window is Some ==> *final(self) == *old(self),
            old(self).window is None ==> final(self).created == old(self).created + 1
                && final(self).window->0.owner == *owner,
    {
        match &self.window {
            Some(w) => w.id,
            None => {
                let w = OrcaWindow::new(owner.clone(), self.created);
                let id = w.id;
                self.window = Some(w);
                self.created = self.created + 1;
                id
            },
        }
    }

    /// The manager after one presentation request: the window is visible
    /// and focused, and nothing else changes.
    pub open spec fn spec_present(self) -> WindowManager {
        match self.window {
            Some(w) => WindowManager {
                window: Some(OrcaWindow { visible: true, focused: true, ..w }),
                ..self
            },
            None => self,
        }
    }

    /// Request the presentation layer to make the window visible and
    /// bring it to foreground focus. Idempotent: presenting an already
    /// visible window only re-focuses it.
    pub fn present(&mut self)
        requires
            old(self).wf(),
            old(self).window is Some,
        ensures
            *final(self) == old(self).spec_present(),
            final(self).wf(),
            final(self).window is Some,
            final(self).window->0.visible,
            final(self).window->0.focused,
            final(self).window->0.id == old(self).window->0.id,
            final(self).window->0.owner == old(self).window->0.owner,
            final(self).created == old(self).created,
    {
        match &mut self.window {
            Some(w) => {
                w.visible = true;
                w.focused = true;
            },
            None => {},
        }
    }
}

/// Law: presentation is idempotent. A second `present` request on the
/// same manager produces no state change at all, and the first changes
/// nothing beyond visibility and focus.
pub proof fn lemma_present_idempotent(wm: WindowManager)
    ensures
        wm.spec_present().spec_present() == wm.spec_present(),
        wm.window matches Some(w) && w.visible && w.focused ==> wm.spec_present() == wm,
{
}

} // verus!
