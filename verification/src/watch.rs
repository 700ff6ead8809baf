//! Keeping the live manifest in step with its file: which changes in the
//! watched directory concern the manifest, and when a burst of them has
//! settled enough to reload.
//!
//! Times are counted in milliseconds from any fixed start.

use crate::paths::{chars_of, runs, same_run, segments, split};
use vstd::prelude::*;

verus! {

/// One change that the watcher of the directory has seen.
#[derive(Debug, PartialEq, Eq)]
pub struct Change {
    /// Whether the change is a modification of what it names.
    pub modify: bool,
    /// The paths that the change names.
    pub paths: Vec<String>,
}

/// The model of a [`Change`].
pub struct ChangeView {
    pub modify: bool,
    pub paths: Seq<Seq<char>>,
}

impl View for Change {
    type V = ChangeView;

    open spec fn view(&self) -> ChangeView {
        ChangeView { modify: self.modify, paths: self.paths.deep_view() }
    }
}

/// Whether a path names the file: its last segment is the file's name.
pub open spec fn names_file(path: Seq<char>, name: Seq<char>) -> bool {
    segments(path).len() > 0 && segments(path).last() == name
}

/// Whether a change concerns the manifest: it is a modification, and one
/// of its paths names the manifest's file.
pub open spec fn concerns(change: ChangeView, name: Seq<char>) -> bool {
    change.modify && exists|i: int|
        0 <= i < change.paths.len() && names_file(#[trigger] change.paths[i], name)
}

impl Change {
    /// Whether the change concerns the file with the given name.
    pub fn is_about(&self, name: &str) -> (yes: bool)
        ensures
            yes == concerns(self@, name@),
    {
        if !self.modify {
            return false;
        }
        let wanted = chars_of(name);
        let ghost all = self.paths.deep_view();
        let mut i: usize = 0;
        while i < self.paths.len()
            invariant
                i <= self.paths@.len(),
                self.modify,
                wanted@ == name@,
                all == self.paths.deep_view(),
                forall|k: int| 0 <= k < i ==> !names_file(#[trigger] all[k], name@),
            decreases self.paths@.len() - i,
        {
            assert(all[i as int] == self.paths@[i as int]@);
            let parts = split(self.paths[i].as_str());
            assert(runs(parts@).len() == parts@.len());
            if parts.len() > 0 {
                let last = &parts[parts.len() - 1];
                assert(runs(parts@).last() == last@);
                if same_run(last, &wanted) {
                    assert(names_file(self@.paths[i as int], name@));
                    return true;
                }
            }
            i += 1;
        }
        false
    }
}

/// The quiet time that a burst of changes must be followed by, and the
/// moment at which the burst under way will have settled, if one is.
#[derive(Clone, Copy, Debug, PartialEq, Eq, Structural)]
pub struct Debounce {
    pub window: u64,
    pub due: Option<u64>,
}

/// The moment at which a change seen at `now` has settled. Past the end of
/// the count of time it is the end.
pub open spec fn settled_at(window: u64, now: u64) -> u64 {
    if now + window > u64::MAX {
        u64::MAX
    } else {
        (now + window) as u64
    }
}

/// Whether a reload is due at `now`: a burst is under way and has settled.
pub open spec fn reload_due(state: Debounce, now: u64) -> bool {
    state.due matches Some(moment) && now >= moment
}

/// The state after the changes seen at the given moments, one by one.
pub open spec fn noticed(state: Debounce, moments: Seq<u64>) -> Debounce
    decreases moments.len(),
{
    if moments.len() == 0 {
        state
    } else {
        Debounce {
            due: Some(settled_at(state.window, moments.last())),
            ..noticed(state, moments.drop_last())
        }
    }
}

impl Debounce {
    /// A state with no burst under way.
    pub fn new(window: u64) -> (state: Debounce)
        ensures
            state == (Debounce { window, due: None }),
    {
        Debounce { window, due: None }
    }

    /// Takes note of a change that concerns the manifest, seen at `now`: the
    /// quiet time starts anew.
    pub fn notice(&mut self, now: u64)
        ensures
            *final(self) == (Debounce { due: Some(settled_at(old(self).window, now)), ..*old(self) }),
    {
        let moment = if now > u64::MAX - self.window {
            u64::MAX
        } else {
            now + self.window
        };
        self.due = Some(moment);
    }

    /// Whether to reload at `now`. Where it is time, the burst is over, and
    /// the next reload waits for the next change.
    pub fn poll(&mut self, now: u64) -> (reload: bool)
        ensures
            reload == reload_due(*old(self), now),
            reload ==> *final(self) == (Debounce { due: None, ..*old(self) }),
            !reload ==> *final(self) == *old(self),
    {
        match self.due {
            Some(moment) => if now >= moment {
                self.due = None;
                true
            } else {
                false
            },
            None => false,
        }
    }

    /// How long to wait at `now` before asking again: until the burst
    /// under way has settled. `None` while there is none: then the next
    /// change is what to wait for.
    pub fn wait(&self, now: u64) -> (pause: Option<u64>)
        ensures
            pause == match self.due {
                Some(moment) => Some(
                    if moment > now {
                        (moment - now) as u64
                    } else {
                        0u64
                    },
                ),
                None => None::<u64>,
            },
    {
        match self.due {
            Some(moment) => Some(
                if moment > now {
                    moment - now
                } else {
                    0
                },
            ),
            None => None,
        }
    }
}

/// A burst of changes is one reload. After changes at any moments, the
/// last of them at `last`, a reload is due from the moment that the last
/// change has settled, and not before; and once it was asked for, none is
/// due until the next change.
pub proof fn lemma_burst_is_one_reload(state: Debounce, moments: Seq<u64>, last: u64, now: u64)
    ensures
        ({
            let after = noticed(state, moments.push(last));
            &&& reload_due(after, now) <==> now >= settled_at(state.window, last)
            &&& forall|later: u64| !reload_due((Debounce { due: None, ..after }), later)
        }),
{
    assert(moments.push(last).last() == last);
}

} // verus!
