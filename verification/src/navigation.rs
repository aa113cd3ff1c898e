//! Where the explorer is, and the two histories by which it goes back and
//! forward.

use crate::paths::{parent_dir, parent_of};
use std::path::PathBuf;
use vstd::prelude::*;

verus! {

/// The current directory with the paths left behind on the way to it and
/// those stepped back from. A step to a new path keeps the forward history
/// as it is: only stepping back and forward move paths between the two.
#[derive(Clone, Debug, PartialEq, Eq)]
pub struct NavigationState {
    pub current: PathBuf,
    pub back: Vec<PathBuf>,
    pub forward: Vec<PathBuf>,
}

/// A navigation state with its histories as sequences, the most recent path
/// last.
pub struct Trail {
    pub current: PathBuf,
    pub back: Seq<PathBuf>,
    pub forward: Seq<PathBuf>,
}

impl Trail {
    /// The state after going to `path`.
    pub open spec fn navigate(self, path: PathBuf) -> Trail {
        Trail { current: path, back: self.back.push(self.current), forward: self.forward }
    }

    /// The state after stepping back, which changes nothing where no path was
    /// left behind.
    pub open spec fn go_back(self) -> Trail {
        if self.back.len() == 0 {
            self
        } else {
            Trail {
                current: self.back.last(),
                back: self.back.drop_last(),
                forward: self.forward.push(self.current),
            }
        }
    }

    /// The state after stepping forward, which changes nothing where no step
    /// back came before.
    pub open spec fn go_forward(self) -> Trail {
        if self.forward.len() == 0 {
            self
        } else {
            Trail {
                current: self.forward.last(),
                back: self.back.push(self.current),
                forward: self.forward.drop_last(),
            }
        }
    }

    /// The state after going up to `parent`, which changes nothing where
    /// there is no parent.
    pub open spec fn go_up(self, parent: Option<PathBuf>) -> Trail {
        match parent {
            Some(dir) => self.navigate(dir),
            None => self,
        }
    }
}

impl View for NavigationState {
    type V = Trail;

    open spec fn view(&self) -> Trail {
        Trail { current: self.current, back: self.back@, forward: self.forward@ }
    }
}

impl NavigationState {
    /// A state at `start` with empty histories.
    pub fn new(start: PathBuf) -> (state: NavigationState)
        ensures
            state@ == (Trail { current: start, back: Seq::empty(), forward: Seq::empty() }),
    {
        NavigationState { current: start, back: Vec::new(), forward: Vec::new() }
    }

    /// Goes to `path` and leaves the current path behind.
    pub fn navigate(&mut self, path: PathBuf)
        ensures
            final(self)@ == old(self)@.navigate(path),
    {
        let mut left = path;
        std::mem::swap(&mut self.current, &mut left);
        self.back.push(left);
    }

    /// Steps back to the path left behind last, if there is one, and says
    /// whether it did.
    pub fn go_back(&mut self) -> (moved: bool)
        ensures
            final(self)@ == old(self)@.go_back(),
            moved == (old(self).back@.len() > 0),
    {
        match self.back.pop() {
            Some(target) => {
                let mut left = target;
                std::mem::swap(&mut self.current, &mut left);
                self.forward.push(left);
                true
            },
            None => false,
        }
    }

    /// Steps forward to the path stepped back from last, if there is one, and
    /// says whether it did.
    pub fn go_forward(&mut self) -> (moved: bool)
        ensures
            final(self)@ == old(self)@.go_forward(),
            moved == (old(self).forward@.len() > 0),
    {
        match self.forward.pop() {
            Some(target) => {
                let mut left = target;
                std::mem::swap(&mut self.current, &mut left);
                self.back.push(left);
                true
            },
            None => false,
        }
    }

    /// Goes to `parent` as to any new path, or stays where there is none, and
    /// says whether it moved.
    pub fn go_up_to(&mut self, parent: Option<PathBuf>) -> (moved: bool)
        ensures
            final(self)@ == old(self)@.go_up(parent),
            moved == parent is Some,
    {
        match parent {
            Some(dir) => {
                self.navigate(dir);
                true
            },
            None => false,
        }
    }

    /// Goes up to the directory that holds the current one as to any new
    /// path, or stays where there is none, and says whether it moved.
    pub fn go_up(&mut self) -> (moved: bool)
        ensures
            final(self)@ == old(self)@.go_up(parent_of(old(self).current)),
            moved == parent_of(old(self).current) is Some,
    {
        let parent = parent_dir(&self.current);
        self.go_up_to(parent)
    }
}

/// Stepping back after going from one path to another restores the path and
/// the history that was there before, and keeps the path gone to as the next
/// step forward; that step forward leads to it again.
pub proof fn lemma_back_undoes_navigate(state: Trail, path: PathBuf)
    ensures
        state.navigate(path).go_back().current == state.current,
        state.navigate(path).go_back().back == state.back,
        state.navigate(path).go_back().forward == state.forward.push(path),
        state.navigate(path).go_back().go_forward() == state.navigate(path),
{
    let gone = state.navigate(path);
    assert(gone.back.last() == state.current);
    assert(gone.back.drop_last() =~= state.back);
    let returned = gone.go_back();
    assert(returned.forward.last() == path);
    assert(returned.forward.drop_last() =~= state.forward);
    assert(returned.back.push(returned.current) =~= gone.back);
}

} // verus!
