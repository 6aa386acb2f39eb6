//! The run options: the chosen action, the optional target path, and the
//! optional device-name hint. Argument parsing and console output live in
//! the embedding program.

use vstd::prelude::*;

verus! {

/// What one invocation is asked to do.
#[derive(Clone, Copy, Debug, PartialEq, Eq, Structural)]
pub enum Action {
    Nothing,
    Usage,
    Docs,
    Monitor,
    ListMidi,
    ListNames,
    SaveCurrent,
    Save,
    Load,
    Clear,
}

/// The options one run was invoked with.
pub struct Options {
    pub action: Action,
    pub path: Option<String>,
    pub device: Option<String>,
}

impl Default for Options {
    fn default() -> (r: Self)
        ensures
            r.action == Action::Usage,
            r.spec_path() is None,
            r.device is None,
    {
        Options { action: Action::Usage, path: None, device: None }
    }
}

/// Whether an action needs a path.
pub open spec fn action_needs_path(a: Action) -> bool {
    a == Action::Save || a == Action::SaveCurrent || a == Action::Load
}

impl Options {
    /// The view of the target path.
    pub open spec fn spec_path(&self) -> Option<Seq<char>> {
        match self.path {
            Some(ref p) => Some(p@),
            None => None,
        }
    }

    pub fn new(action: Action, path: Option<String>, device: Option<String>) -> (r: Self)
        ensures
            r.action == action,
            r.spec_path() is Some <==> path is Some,
            path is Some ==> r.spec_path()->0 == path->0@,
            r.device == device,
    {
        Options { action, path, device }
    }

    /// True when the action has everything it needs: the save and load
    /// actions require a path.
    pub fn validate(&self) -> (r: bool)
        ensures
            r == (action_needs_path(self.action) ==> self.spec_path() is Some),
    {
        match self.action {
            Action::Save | Action::SaveCurrent | Action::Load => self.path.is_some(),
            _ => true,
        }
    }

    /// Records the chosen action; only one action may be chosen per run.
    pub fn set_action(&mut self, act: Action) -> (r: bool)
        ensures
            r == (old(self).action == Action::Nothing || old(self).action == Action::Usage || old(
                self,
            ).action == Action::Docs),
            r ==> final(self).action == act,
            !r ==> final(self).action == old(self).action,
            final(self).spec_path() == old(self).spec_path(),
            final(self).device == old(self).device,
    {
        match self.action {
            Action::Nothing | Action::Usage | Action::Docs => {
                self.action = act;
                true
            },
            _ => false,
        }
    }

    /// Stores the target path.
    pub fn set_path(&mut self, path: String)
        ensures
            final(self).spec_path() == Some(path@),
            final(self).action == old(self).action,
            final(self).device == old(self).device,
    {
        self.path = Some(path);
    }

    /// A copy of the target path, if one was given.
    pub fn get_path(&self) -> (r: Option<String>)
        ensures
            r is Some <==> self.spec_path() is Some,
            r is Some ==> r->0@ == self.spec_path()->0,
    {
        match &self.path {
            Some(p) => Some(p.clone()),
            None => None,
        }
    }

    /// The target path as display text, if one was given.
    pub fn get_path_display_name(&self) -> (r: Option<String>)
        ensures
            r is Some <==> self.spec_path() is Some,
            r is Some ==> r->0@ == self.spec_path()->0,
    {
        match &self.path {
            Some(p) => Some(p.clone()),
            None => None,
        }
    }
}

} // verus!
