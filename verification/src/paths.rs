//! Relative paths as the manifest writes them: split into segments at `/`
//! and `\`, so that a path means the same on either kind of host.

use vstd::prelude::*;

verus! {

/// Whether the character parts two segments of a path.
pub open spec fn is_separator(c: char) -> bool {
    c == '/' || c == '\\'
}

/// Whether a run of characters between two separators counts as a segment:
/// an empty run and the run `.` name no directory of their own.
pub open spec fn counts(run: Seq<char>) -> bool {
    run.len() > 0 && run != seq!['.']
}

/// The segments so far, with one more run closed.
pub open spec fn close(done: Seq<Seq<char>>, run: Seq<char>) -> Seq<Seq<char>> {
    if counts(run) {
        done.push(run)
    } else {
        done
    }
}

/// Reading the first `end` characters of the path from the left: the
/// segments that are closed by then, and where the run under way began.
pub open spec fn scan(path: Seq<char>, end: int) -> (Seq<Seq<char>>, int)
    decreases end,
{
    if end <= 0 {
        (Seq::empty(), 0)
    } else {
        let (done, start) = scan(path, end - 1);
        if is_separator(path[end - 1]) {
            (close(done, path.subrange(start, end - 1)), end)
        } else {
            (done, start)
        }
    }
}

/// The segments of a path: its runs of characters other than `/` and `\`,
/// from left to right, but for empty runs and the run `.`.
pub open spec fn segments(path: Seq<char>) -> Seq<Seq<char>> {
    let (done, start) = scan(path, path.len() as int);
    close(done, path.subrange(start, path.len() as int))
}

/// Whether the path starts at a root of the file system, or names a drive.
pub open spec fn is_absolute(path: Seq<char>) -> bool {
    path.len() > 0 && (is_separator(path[0]) || (path.len() >= 2 && path[1] == ':'))
}

/// Whether one of the path's segments is `..`.
pub open spec fn climbs(path: Seq<char>) -> bool {
    segments(path).contains(seq!['.', '.'])
}

/// Whether a destination stays inside the tree below `root`: it never
/// climbs with `..`, and where it is absolute it lies below `root`.
pub open spec fn stays_below(root: Seq<char>, destination: Seq<char>) -> bool {
    &&& !climbs(destination)
    &&& is_absolute(destination) ==> segments(root).is_prefix_of(segments(destination))
}

/// Whether two paths name the same place below a common directory.
pub open spec fn same_place(a: Seq<char>, b: Seq<char>) -> bool {
    segments(a) == segments(b)
}

/// The views of a list of character vectors.
pub open spec fn runs(list: Seq<Vec<char>>) -> Seq<Seq<char>> {
    Seq::new(list.len(), |i: int| list[i]@)
}

/// Reading up to `end` closes nothing where no separator comes before `cut`.
pub proof fn lemma_scan_head(path: Seq<char>, cut: int, end: int)
    requires
        0 <= end <= cut <= path.len(),
        forall|i: int| 0 <= i < cut ==> !is_separator(#[trigger] path[i]),
    ensures
        scan(path, end) == (Seq::<Seq<char>>::empty(), 0int),
    decreases end,
{
    if end > 0 {
        lemma_scan_head(path, cut, end - 1);
    }
}

/// Reading on from `from` changes nothing where no separator follows.
pub proof fn lemma_scan_tail(path: Seq<char>, from: int, end: int)
    requires
        0 <= from <= end <= path.len(),
        forall|i: int| from <= i < path.len() ==> !is_separator(#[trigger] path[i]),
    ensures
        scan(path, end) == scan(path, from),
    decreases end - from,
{
    if end > from {
        lemma_scan_tail(path, from, end - 1);
    }
}

/// A path without separators that counts as a run is its own single segment.
pub proof fn lemma_single_segment(path: Seq<char>)
    requires
        forall|i: int| 0 <= i < path.len() ==> !is_separator(#[trigger] path[i]),
        counts(path),
    ensures
        segments(path) == seq![path],
{
    lemma_scan_head(path, path.len() as int, path.len() as int);
    assert(path.subrange(0, path.len() as int) =~= path);
    assert(Seq::<Seq<char>>::empty().push(path) =~= seq![path]);
}

/// Two runs without separators, joined by `/`, are the two segments of
/// the joined path, where both count.
pub proof fn lemma_two_segments(first: Seq<char>, second: Seq<char>)
    requires
        forall|i: int| 0 <= i < first.len() ==> !is_separator(#[trigger] first[i]),
        forall|i: int| 0 <= i < second.len() ==> !is_separator(#[trigger] second[i]),
        counts(first),
        counts(second),
    ensures
        segments(first + seq!['/'] + second) == seq![first, second],
{
    let path = first + seq!['/'] + second;
    let cut = first.len() as int;
    lemma_scan_head(path, cut, cut);
    assert(path[cut] == '/');
    assert(path.subrange(0, cut) =~= first);
    assert(scan(path, cut + 1) == (close(Seq::<Seq<char>>::empty(), first), cut + 1));
    assert(Seq::<Seq<char>>::empty().push(first) =~= seq![first]);
    assert forall|i: int| cut < i < path.len() implies !is_separator(#[trigger] path[i]) by {
        assert(path[i] == second[i - cut - 1]);
    }
    lemma_scan_tail(path, cut + 1, path.len() as int);
    assert(path.subrange(cut + 1, path.len() as int) =~= second);
    assert(seq![first].push(second) =~= seq![first, second]);
}

/// Whether a run is a segment in good standing: it counts, and none of
/// its characters parts segments.
pub open spec fn is_segment(run: Seq<char>) -> bool {
    counts(run) && forall|j: int| 0 <= j < run.len() ==> !is_separator(#[trigger] run[j])
}

/// Reading a path never closes anything but segments in good standing,
/// and the run under way holds no separator.
pub proof fn lemma_scan_closes_segments(path: Seq<char>, end: int)
    requires
        0 <= end <= path.len(),
    ensures
        0 <= scan(path, end).1 <= end,
        forall|i: int| scan(path, end).1 <= i < end ==> !is_separator(#[trigger] path[i]),
        forall|k: int| 0 <= k < scan(path, end).0.len() ==> is_segment(#[trigger] scan(path, end).0[k]),
    decreases end,
{
    if end > 0 {
        lemma_scan_closes_segments(path, end - 1);
        let (done, start) = scan(path, end - 1);
        if is_separator(path[end - 1]) {
            let run = path.subrange(start, end - 1);
            assert forall|j: int| 0 <= j < run.len() implies !is_separator(#[trigger] run[j]) by {
                assert(run[j] == path[start + j]);
            }
        }
    }
}

/// Every segment of a path is a run of its characters between two
/// separators: it is not empty, is not `.`, and holds no separator.
pub proof fn lemma_segments_are_runs(path: Seq<char>)
    ensures
        forall|k: int| 0 <= k < segments(path).len() ==> is_segment(#[trigger] segments(path)[k]),
{
    let end = path.len() as int;
    lemma_scan_closes_segments(path, end);
    let (done, start) = scan(path, end);
    let run = path.subrange(start, end);
    assert forall|j: int| 0 <= j < run.len() implies !is_separator(#[trigger] run[j]) by {
        assert(run[j] == path[start + j]);
    }
}

/// The characters of a text.
pub fn chars_of(text: &str) -> (chars: Vec<char>)
    ensures
        chars@ == text@,
{
    let total = text.unicode_len();
    let mut chars: Vec<char> = Vec::new();
    for c in it: text.chars()
        invariant
            it.seq() == text@,
            total == text@.len(),
            chars@.len() == it.index(),
            chars@ == text@.subrange(0, it.index() as int),
    {
        chars.push(c);
        assert(chars@ =~= text@.subrange(0, it.index() + 1));
    }
    assert(chars@ =~= text@);
    chars
}

/// A copy of the characters from `start` up to `end`.
fn copy_run(chars: &Vec<char>, start: usize, end: usize) -> (run: Vec<char>)
    requires
        start <= end <= chars@.len(),
    ensures
        run@ == chars@.subrange(start as int, end as int),
{
    let mut run: Vec<char> = Vec::new();
    let mut i: usize = start;
    while i < end
        invariant
            start <= i <= end <= chars@.len(),
            run@ == chars@.subrange(start as int, i as int),
        decreases end - i,
    {
        run.push(chars[i]);
        i += 1;
        assert(run@ =~= chars@.subrange(start as int, i as int));
    }
    run
}

/// Closes the run from `start` up to `end` and keeps it where it counts.
fn close_run(done: &mut Vec<Vec<char>>, chars: &Vec<char>, start: usize, end: usize)
    requires
        start <= end <= chars@.len(),
    ensures
        runs(final(done)@) == close(runs(old(done)@), chars@.subrange(start as int, end as int)),
{
    let ghost run = chars@.subrange(start as int, end as int);
    let single_dot = end - start == 1 && chars[start] == '.';
    assert(single_dot <==> run == seq!['.']) by {
        assert(run.len() == end - start);
        if end - start == 1 {
            assert(run[0] == chars@[start as int]);
            assert(seq!['.'][0] == '.');
        }
        if single_dot {
            assert(run =~= seq!['.']);
        }
        if run == seq!['.'] {
            assert(seq!['.'].len() == 1);
        }
    }
    if end > start && !single_dot {
        let copy = copy_run(chars, start, end);
        done.push(copy);
        assert(runs(done@) =~= runs(old(done)@).push(run));
    }
}

/// Splits a path into its segments.
pub fn split(path: &str) -> (list: Vec<Vec<char>>)
    ensures
        runs(list@) == segments(path@),
{
    let chars = chars_of(path);
    let mut done: Vec<Vec<char>> = Vec::new();
    let mut start: usize = 0;
    let mut i: usize = 0;
    assert(runs(done@) =~= Seq::<Seq<char>>::empty());
    while i < chars.len()
        invariant
            chars@ == path@,
            start <= i <= chars@.len(),
            (runs(done@), start as int) == scan(path@, i as int),
        decreases chars@.len() - i,
    {
        let c = chars[i];
        if c == '/' || c == '\\' {
            close_run(&mut done, &chars, start, i);
            start = i + 1;
        }
        i += 1;
    }
    close_run(&mut done, &chars, start, i);
    done
}


/// Whether two runs hold the same characters.
pub fn same_run(a: &Vec<char>, b: &Vec<char>) -> (same: bool)
    ensures
        same == (a@ == b@),
{
    if a.len() != b.len() {
        return false;
    }
    let mut i: usize = 0;
    while i < a.len()
        invariant
            a@.len() == b@.len(),
            i <= a@.len(),
            forall|k: int| 0 <= k < i ==> a@[k] == b@[k],
        decreases a@.len() - i,
    {
        if a[i] != b[i] {
            return false;
        }
        i += 1;
    }
    assert(a@ =~= b@);
    true
}

/// Whether the first list of segments opens the second.
pub fn opens(head: &Vec<Vec<char>>, whole: &Vec<Vec<char>>) -> (prefix: bool)
    ensures
        prefix == runs(head@).is_prefix_of(runs(whole@)),
{
    if head.len() > whole.len() {
        return false;
    }
    let mut i: usize = 0;
    while i < head.len()
        invariant
            head@.len() <= whole@.len(),
            i <= head@.len(),
            forall|k: int| 0 <= k < i ==> runs(head@)[k] == runs(whole@)[k],
        decreases head@.len() - i,
    {
        if !same_run(&head[i], &whole[i]) {
            assert(runs(head@)[i as int] != runs(whole@)[i as int]);
            return false;
        }
        i += 1;
    }
    assert(runs(head@) =~= runs(whole@).subrange(0, runs(head@).len() as int));
    true
}

/// Whether two lists of segments are the same.
pub fn same_segments(a: &Vec<Vec<char>>, b: &Vec<Vec<char>>) -> (same: bool)
    ensures
        same == (runs(a@) == runs(b@)),
{
    if a.len() != b.len() {
        return false;
    }
    let prefix = opens(a, b);
    proof {
        if prefix {
            assert(runs(a@) =~= runs(b@));
        }
    }
    prefix
}

/// Whether the path starts at a root of the file system, or names a drive.
pub fn absolute(path: &str) -> (yes: bool)
    ensures
        yes == is_absolute(path@),
{
    let chars = chars_of(path);
    if chars.len() == 0 {
        return false;
    }
    let first = chars[0];
    if first == '/' || first == '\\' {
        return true;
    }
    chars.len() >= 2 && chars[1] == ':'
}

/// Whether one of the segments is `..`.
pub fn any_parent(list: &Vec<Vec<char>>) -> (yes: bool)
    ensures
        yes == runs(list@).contains(seq!['.', '.']),
{
    let mut i: usize = 0;
    while i < list.len()
        invariant
            i <= list@.len(),
            forall|k: int| 0 <= k < i ==> runs(list@)[k] != seq!['.', '.'],
        decreases list@.len() - i,
    {
        let run = &list[i];
        if run.len() == 2 && run[0] == '.' && run[1] == '.' {
            assert(run@ =~= seq!['.', '.']);
            assert(runs(list@)[i as int] == seq!['.', '.']);
            return true;
        }
        assert(run@ != seq!['.', '.']) by {
            if run@ == seq!['.', '.'] {
                assert(seq!['.', '.'].len() == 2);
                assert(seq!['.', '.'][0] == '.');
                assert(seq!['.', '.'][1] == '.');
            }
        }
        i += 1;
    }
    false
}

/// Whether a destination stays inside the tree below `root`.
pub fn below(root: &str, destination: &str) -> (yes: bool)
    ensures
        yes == stays_below(root@, destination@),
{
    let parts = split(destination);
    if any_parent(&parts) {
        return false;
    }
    if absolute(destination) {
        let base = split(root);
        opens(&base, &parts)
    } else {
        true
    }
}

/// Whether two paths name the same place below a common directory.
pub fn same(a: &str, b: &str) -> (yes: bool)
    ensures
        yes == same_place(a@, b@),
{
    let left = split(a);
    let right = split(b);
    same_segments(&left, &right)
}

} // verus!
