//! What an install does to the files of a destination.
//!
//! The files of a directory are given by their places below it. An install
//! puts the staged files in the place of the destination's files, but never
//! touches a place that an entry of `excluded_files` protects: such a place
//! keeps the file it has, or stays empty.

use crate::paths::{opens, runs, segments, split};
use vstd::prelude::*;

verus! {

/// The files of a directory: content by place, a place being the segments
/// of a path below the directory.
pub type Tree = Map<Seq<Seq<char>>, Seq<u8>>;

/// Whether an entry protects a place: it names the place, or a directory
/// above it. An entry that names nothing protects nothing.
pub open spec fn guards(entry: Seq<char>, place: Seq<Seq<char>>) -> bool {
    segments(entry).len() > 0 && segments(entry).is_prefix_of(place)
}

/// Whether one of the entries protects the place.
pub open spec fn protected(excluded: Seq<Seq<char>>, place: Seq<Seq<char>>) -> bool {
    exists|i: int| 0 <= i < excluded.len() && guards(#[trigger] excluded[i], place)
}

/// The test by which an install picks the paths it touches.
pub open spec fn touched(excluded: Seq<Seq<char>>) -> spec_fn(Seq<char>) -> bool {
    |path: Seq<char>| !protected(excluded, segments(path))
}

/// The files of the destination after an install: a protected place is as
/// it was before, every other place is as the staged files have it.
pub open spec fn installed(before: Tree, staged: Tree, excluded: Seq<Seq<char>>) -> Tree {
    Map::new(
        |place: Seq<Seq<char>>|
            if protected(excluded, place) {
                before.contains_key(place)
            } else {
                staged.contains_key(place)
            },
        |place: Seq<Seq<char>>|
            if protected(excluded, place) {
                before[place]
            } else {
                staged[place]
            },
    )
}

/// The steps of an install: the files to take out of the destination, then
/// the staged files to put into it.
#[derive(Debug, PartialEq, Eq)]
pub struct InstallPlan {
    /// Paths below the destination, of the files to remove.
    pub remove: Vec<String>,
    /// Paths below the staging directory, of the files to copy to the same
    /// path below the destination.
    pub copy: Vec<String>,
}

/// The model of an [`InstallPlan`].
pub struct PlanView {
    pub remove: Seq<Seq<char>>,
    pub copy: Seq<Seq<char>>,
}

impl View for InstallPlan {
    type V = PlanView;

    open spec fn view(&self) -> PlanView {
        PlanView { remove: self.remove.deep_view(), copy: self.copy.deep_view() }
    }
}

/// The plan of an install, from the paths of the files that the
/// destination has and of those that were staged: every path that no entry
/// protects, in the order given.
pub open spec fn plan_of(
    existing: Seq<Seq<char>>,
    staged: Seq<Seq<char>>,
    excluded: Seq<Seq<char>>,
) -> PlanView {
    PlanView { remove: existing.filter(touched(excluded)), copy: staged.filter(touched(excluded)) }
}

/// Whether one of the paths leads to the place.
pub open spec fn lists(paths: Seq<Seq<char>>, place: Seq<Seq<char>>) -> bool {
    exists|i: int| 0 <= i < paths.len() && segments(#[trigger] paths[i]) == place
}

/// The files of the destination once a plan is carried out: what it
/// copies is as staged, what it removes is gone, the rest is as before.
pub open spec fn carried_out(before: Tree, staged: Tree, plan: PlanView) -> Tree {
    Map::new(
        |place: Seq<Seq<char>>|
            (lists(plan.copy, place) && staged.contains_key(place)) || (before.contains_key(place)
                && !lists(plan.remove, place)),
        |place: Seq<Seq<char>>|
            if lists(plan.copy, place) && staged.contains_key(place) {
                staged[place]
            } else {
                before[place]
            },
    )
}

/// A filtered list leads to a place exactly where the list leads to it by
/// a path that passes the test.
proof fn lemma_filter_lists(paths: Seq<Seq<char>>, excluded: Seq<Seq<char>>, place: Seq<Seq<char>>)
    ensures
        lists(paths.filter(touched(excluded)), place) <==> lists(paths, place) && !protected(
            excluded,
            place,
        ),
{
    let test = touched(excluded);
    let kept = paths.filter(test);
    broadcast use vstd::seq_lib::group_filter_ensures;

    if lists(kept, place) {
        let i = choose|i: int| 0 <= i < kept.len() && segments(#[trigger] kept[i]) == place;
        assert(test(kept[i]));
        paths.lemma_filter_contains_rev(test, kept[i]);
        let j = choose|j: int| 0 <= j < paths.len() && paths[j] == kept[i];
        assert(segments(paths[j]) == place);
    }
    if lists(paths, place) && !protected(excluded, place) {
        let j = choose|j: int| 0 <= j < paths.len() && segments(#[trigger] paths[j]) == place;
        assert(test(paths[j]));
        assert(kept.contains(paths[j]));
        let i = choose|i: int| 0 <= i < kept.len() && kept[i] == paths[j];
        assert(segments(kept[i]) == place);
    }
}

/// Carrying out the plan installs the staged files: where the lists name
/// every file of the destination and every staged file, the destination
/// ends up as `installed` says.
pub proof fn lemma_plan_installs(
    before: Tree,
    staged: Tree,
    existing: Seq<Seq<char>>,
    arrivals: Seq<Seq<char>>,
    excluded: Seq<Seq<char>>,
)
    requires
        forall|place: Seq<Seq<char>>| before.contains_key(place) ==> lists(existing, place),
        forall|place: Seq<Seq<char>>| staged.contains_key(place) ==> lists(arrivals, place),
    ensures
        carried_out(before, staged, plan_of(existing, arrivals, excluded)) == installed(
            before,
            staged,
            excluded,
        ),
{
    let plan = plan_of(existing, arrivals, excluded);
    let left = carried_out(before, staged, plan);
    let right = installed(before, staged, excluded);
    assert forall|place: Seq<Seq<char>>| #[trigger]
        left.dom().contains(place) == right.dom().contains(place) by {
        lemma_filter_lists(existing, excluded, place);
        lemma_filter_lists(arrivals, excluded, place);
    }
    assert forall|place: Seq<Seq<char>>| #[trigger] left.dom().contains(place) implies left[place]
        == right[place] by {
        lemma_filter_lists(existing, excluded, place);
        lemma_filter_lists(arrivals, excluded, place);
    }
    assert(left =~= right);
}

/// An install leaves every protected place as it was: the same file with
/// the same content, or no file, whatever the staged files hold there.
pub proof fn lemma_excluded_files_survive(
    before: Tree,
    staged: Tree,
    excluded: Seq<Seq<char>>,
    place: Seq<Seq<char>>,
)
    requires
        protected(excluded, place),
    ensures
        installed(before, staged, excluded).contains_key(place) == before.contains_key(place),
        before.contains_key(place) ==> installed(before, staged, excluded)[place] == before[place],
{
}

/// An entry protects the file that it names.
pub proof fn lemma_entry_guards_itself(excluded: Seq<Seq<char>>, i: int)
    requires
        0 <= i < excluded.len(),
        segments(excluded[i]).len() > 0,
    ensures
        protected(excluded, segments(excluded[i])),
{
    assert(guards(excluded[i], segments(excluded[i])));
}

/// With nothing excluded, the destination ends up as the staged files.
pub proof fn lemma_install_without_exclusions(before: Tree, staged: Tree)
    ensures
        installed(before, staged, Seq::empty()) == staged,
{
    assert(installed(before, staged, Seq::empty()) =~= staged);
}

/// The segments of each path of a list.
pub fn split_all(paths: &Vec<String>) -> (parts: Vec<Vec<Vec<char>>>)
    ensures
        parts@.len() == paths@.len(),
        forall|i: int| 0 <= i < paths@.len() ==> runs((#[trigger] parts@[i])@) == segments(paths@[i]@),
{
    let mut parts: Vec<Vec<Vec<char>>> = Vec::new();
    let mut i: usize = 0;
    while i < paths.len()
        invariant
            i <= paths@.len(),
            parts@.len() == i,
            forall|k: int| 0 <= k < i ==> runs((#[trigger] parts@[k])@) == segments(paths@[k]@),
        decreases paths@.len() - i,
    {
        parts.push(split(paths[i].as_str()));
        i += 1;
    }
    parts
}

/// Whether one of the entries, given by their segments, protects the place.
fn protects(
    entries: &Vec<Vec<Vec<char>>>,
    place: &Vec<Vec<char>>,
    Ghost(excluded): Ghost<Seq<Seq<char>>>,
) -> (yes: bool)
    requires
        entries@.len() == excluded.len(),
        forall|i: int|
            0 <= i < excluded.len() ==> runs((#[trigger] entries@[i])@) == segments(excluded[i]),
    ensures
        yes == protected(excluded, runs(place@)),
{
    let mut i: usize = 0;
    while i < entries.len()
        invariant
            i <= entries@.len(),
            entries@.len() == excluded.len(),
            forall|k: int|
                0 <= k < excluded.len() ==> runs((#[trigger] entries@[k])@) == segments(excluded[k]),
            forall|k: int| 0 <= k < i ==> !guards(#[trigger] excluded[k], runs(place@)),
        decreases entries@.len() - i,
    {
        let entry = &entries[i];
        assert(runs(entry@) == segments(excluded[i as int]));
        assert(runs(entry@).len() == entry@.len());
        if entry.len() > 0 && opens(entry, place) {
            assert(guards(excluded[i as int], runs(place@)));
            return true;
        }
        i += 1;
    }
    false
}

/// The paths of a list that no entry protects, in the order given.
fn pick(
    paths: &Vec<String>,
    entries: &Vec<Vec<Vec<char>>>,
    Ghost(excluded): Ghost<Seq<Seq<char>>>,
) -> (picked: Vec<String>)
    requires
        entries@.len() == excluded.len(),
        forall|i: int|
            0 <= i < excluded.len() ==> runs((#[trigger] entries@[i])@) == segments(excluded[i]),
    ensures
        picked.deep_view() == paths.deep_view().filter(touched(excluded)),
{
    let ghost all = paths.deep_view();
    let ghost test = touched(excluded);
    let mut picked: Vec<String> = Vec::new();
    let mut i: usize = 0;
    proof {
        reveal(Seq::filter);
        assert(all.subrange(0, 0) =~= Seq::<Seq<char>>::empty());
        assert(picked.deep_view() =~= all.subrange(0, 0).filter(test));
    }
    while i < paths.len()
        invariant
            i <= paths@.len(),
            all == paths.deep_view(),
            test == touched(excluded),
            entries@.len() == excluded.len(),
            forall|k: int|
                0 <= k < excluded.len() ==> runs((#[trigger] entries@[k])@) == segments(excluded[k]),
            picked.deep_view() == all.subrange(0, i as int).filter(test),
        decreases paths@.len() - i,
    {
        let place = split(paths[i].as_str());
        let ghost before = picked.deep_view();
        let guarded = protects(entries, &place, Ghost(excluded));
        proof {
            reveal(Seq::filter);
            let next = all.subrange(0, i + 1);
            assert(next.drop_last() =~= all.subrange(0, i as int));
            assert(next.last() == all[i as int]);
            assert(all[i as int] == paths@[i as int]@);
            assert(test(all[i as int]) == !guarded);
        }
        if !guarded {
            picked.push(paths[i].clone());
            assert(picked.deep_view() =~= before.push(all[i as int]));
        }
        i += 1;
    }
    assert(all.subrange(0, i as int) =~= all);
    picked
}

/// Plans an install, from the paths of the files that the destination has,
/// the paths of the staged files, and the entries of `excluded_files`.
pub fn plan_install(
    existing: &Vec<String>,
    staged: &Vec<String>,
    excluded: &Vec<String>,
) -> (plan: InstallPlan)
    ensures
        plan@ == plan_of(existing.deep_view(), staged.deep_view(), excluded.deep_view()),
{
    let entries = split_all(excluded);
    let ghost entries_view = excluded.deep_view();
    assert forall|i: int| 0 <= i < entries_view.len() implies runs((#[trigger] entries@[i])@)
        == segments(entries_view[i]) by {
        assert(entries_view[i] == excluded@[i]@);
    }
    let remove = pick(existing, &entries, Ghost(entries_view));
    let copy = pick(staged, &entries, Ghost(entries_view));
    InstallPlan { remove, copy }
}

} // verus!
