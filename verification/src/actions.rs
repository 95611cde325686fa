use vstd::prelude::*;

verus! {

/// The stateless command an action dispatches to.
#[derive(Clone, Copy, Debug, PartialEq, Eq, Structural)]
pub enum ActionHandler {
    /// Terminate the event loop and exit the process.
    Quit,
    /// Show the modal about dialog over the active window.
    About,
}

/// One registered global action: a unique name, the handler it dispatches
/// to, and the key combinations bound to it.
#[derive(Clone, Debug, PartialEq, Eq)]
pub struct ActionEntry {
    /// Name the shell and menu system invoke the action by.
    pub name: String,
    /// Command dispatched when the action is invoked.
    pub handler: ActionHandler,
    /// Key combinations that trigger the action.
    pub accels: Vec<String>,
}

/// The application's registered-actions table together with its
/// accelerator bindings. Action names are unique within the table, so a
/// name lookup is unambiguous.
#[derive(Clone, Debug, PartialEq, Eq)]
pub struct ActionTable {
    /// The registered actions, in registration order.
    pub entries: Vec<ActionEntry>,
}

impl ActionTable {
    /// Whether an action of this name is registered.
    pub open spec fn contains_name(self, name: Seq<char>) -> bool {
        exists|i: int| 0 <= i < self.entries@.len() && self.entries@[i].name@ == name
    }

    /// Table invariant: action names are unique.
    pub open spec fn wf(self) -> bool {
        forall|i: int, j: int|
            0 <= i < j < self.entries@.len() ==> self.entries@[i].name@ != self.entries@[j].name@
    }

    /// A table starts empty.
    pub fn new() -> (t: ActionTable)
        ensures
            t.entries@.len() == 0,
            t.wf(),
    {
        ActionTable { entries: Vec::new() }
    }

    /// Register a named action with no accelerators yet. Registering a
    /// name twice is a caller error, which the uniqueness invariant
    /// rules out.
    pub fn add_action(&mut self, name: String, handler: ActionHandler)
        requires
            old(self).wf(),
            !old(self).contains_name(name@),
            old(self).entries@.len() < usize::MAX,
        ensures
            final(self).wf(),
            final(self).entries@.len() == old(self).entries@.len() + 1,
            forall|i: int|
                0 <= i < old(self).entries@.len() ==> final(self).entries@[i] == old(
                    self,
                ).entries@[i],
            final(self).entries@.last().name == name,
            final(self).entries@.last().handler == handler,
            final(self).entries@.last().accels@.len() == 0,
    {
        self.entries.push(ActionEntry { name, handler, accels: Vec::new() });
    }

    /// Bind the given key combinations to the named action, replacing any
    /// previous binding. The action must already be registered.
    pub fn set_accels_for_action(&mut self, name: &String, accels: Vec<String>)
        requires
            old(self).wf(),
            old(self).contains_name(name@),
        ensures
            final(self).wf(),
            final(self).entries@.len() == old(self).entries@.len(),
            forall|i: int|
                0 <= i < old(self).entries@.len() && old(self).entries@[i].name@ != name@
                    ==> final(self).entries@[i] == old(self).entries@[i],
            forall|i: int|
                0 <= i < old(self).entries@.len() && old(self).entries@[i].name@ == name@
                    ==> final(self).entries@[i] == (ActionEntry {
                    accels,
                    ..old(self).entries@[i]
                }),
    {
        let n = self.entries.len();
        let mut k: usize = 0;
        while k < n
            invariant
                n == self.entries@.len(),
                k <= n,
                self.wf(),
                *self == *old(self),
                exists|i: int| k <= i < n && self.entries@[i].name@ == name@,
            decreases n - k,
        {
            if self.entries[k].name.eq(name) {
                let entry = ActionEntry {
                    name: self.entries[k].name.clone(),
                    handler: self.entries[k].handler,
                    accels,
                };
                self.entries.set(k, entry);
                return ;
            }
            k = k + 1;
        }
    }

    /// Look the named action up and return its handler, or `None` when no
    /// action of this name is registered.
    pub fn handler_for(&self, name: &String) -> (r: Option<ActionHandler>)
        requires
            self.wf(),
        ensures
            match r {
                Some(h) => exists|i: int|
                    0 <= i < self.entries@.len() && self.entries@[i].name@ == name@
                        && self.entries@[i].handler == h,
                None => !self.contains_name(name@),
            },
    {
        let n = self.entries.len();
        let mut k: usize = 0;
        while k < n
            invariant
                n == self.entries@.len(),
                k <= n,
                forall|i: int| 0 <= i < k ==> self.entries@[i].name@ != name@,
            decreases n - k,
        {
            if self.entries[k].name.eq(name) {
                return Some(self.entries[k].handler);
            }
            k = k + 1;
        }
        None
    }
}

} // verus!
