//! Where a deployment keeps what it puts aside: the backup of the
//! destination, and the staged payload.
//!
//! Both are named after the artifact and the attempt, and lie in a
//! directory of their own below the root directory: `.backups` and
//! `.staging`. The name is one path segment whatever the artifact's id holds.

use crate::paths::{
    chars_of, climbs, counts, is_absolute, is_separator, lemma_two_segments, segments, stays_below,
};
use crate::text::{decimal, decimal_text, lemma_decimal_digits};
use vstd::prelude::*;

verus! {

/// Whether a character of an id is kept in a file name as it is.
pub open spec fn plain(c: char) -> bool {
    ('a' <= c <= 'z') || ('A' <= c <= 'Z') || ('0' <= c <= '9') || c == '-' || c == '_' || c == '.'
}

/// The id with every character that is not plain replaced by `_`.
pub open spec fn safe_name(id: Seq<char>) -> Seq<char> {
    Seq::new(
        id.len(),
        |i: int|
            if plain(id[i]) {
                id[i]
            } else {
                '_'
            },
    )
}

/// The name of what an attempt puts aside: the safe name of the artifact,
/// a hyphen, and the number of the attempt.
pub open spec fn backup_name(id: Seq<char>, attempt: nat) -> Seq<char> {
    safe_name(id) + seq!['-'] + decimal(attempt)
}

/// The directory that holds the backups, relative to the root directory.
pub open spec fn backup_directory() -> Seq<char> {
    seq!['.', 'b', 'a', 'c', 'k', 'u', 'p', 's']
}

/// The directory that holds the staged payloads, relative to the root
/// directory.
pub open spec fn staging_directory() -> Seq<char> {
    seq!['.', 's', 't', 'a', 'g', 'i', 'n', 'g']
}

/// The place in a directory of what an attempt puts aside.
pub open spec fn place_in(directory: Seq<char>, id: Seq<char>, attempt: nat) -> Seq<char> {
    directory + seq!['/'] + backup_name(id, attempt)
}

/// The place of a backup, relative to the root directory.
pub open spec fn backup_place(id: Seq<char>, attempt: nat) -> Seq<char> {
    place_in(backup_directory(), id, attempt)
}

/// The place of a staged payload, relative to the root directory.
pub open spec fn staging_place(id: Seq<char>, attempt: nat) -> Seq<char> {
    place_in(staging_directory(), id, attempt)
}

/// Writes the safe name of an id.
pub fn safe_name_text(id: &str) -> (name: String)
    ensures
        name@ == safe_name(id@),
{
    let chars = chars_of(id);
    let mut name = String::new();
    let mut i: usize = 0;
    while i < chars.len()
        invariant
            chars@ == id@,
            i <= chars@.len(),
            name@ == safe_name(id@).subrange(0, i as int),
        decreases chars@.len() - i,
    {
        let c = chars[i];
        let keep = (c >= 'a' && c <= 'z') || (c >= 'A' && c <= 'Z') || (c >= '0' && c <= '9') || c
            == '-' || c == '_' || c == '.';
        if keep {
            name.append(id.substring_char(i, i + 1));
        } else {
            proof {
                reveal_strlit("_");
            }
            name.append("_");
        }
        i += 1;
        assert(name@ =~= safe_name(id@).subrange(0, i as int));
    }
    assert(name@ =~= safe_name(id@));
    name
}

/// Writes the place in a directory of what an attempt puts aside.
fn location_in(directory: &str, id: &str, attempt: u64) -> (place: String)
    ensures
        place@ == place_in(directory@, id@, attempt as nat),
{
    proof {
        reveal_strlit("/");
        reveal_strlit("-");
    }
    let mut place = String::from_str(directory);
    place.append("/");
    let name = safe_name_text(id);
    place.append(name.as_str());
    place.append("-");
    let number = decimal_text(attempt);
    place.append(number.as_str());
    assert(place@ =~= place_in(directory@, id@, attempt as nat));
    place
}

/// Writes the place of the backup that the given attempt takes of the
/// artifact with the given id.
pub fn backup_location(id: &str, attempt: u64) -> (place: String)
    ensures
        place@ == backup_place(id@, attempt as nat),
        !is_absolute(place@),
        !climbs(place@),
{
    proof {
        reveal_strlit(".backups");
        assert(".backups"@ =~= backup_directory());
        lemma_backup_place(id@, attempt as nat);
    }
    location_in(".backups", id, attempt)
}

/// Writes the place where the given attempt stages the payload for the
/// artifact with the given id.
pub fn staging_location(id: &str, attempt: u64) -> (place: String)
    ensures
        place@ == staging_place(id@, attempt as nat),
        !is_absolute(place@),
        !climbs(place@),
{
    proof {
        reveal_strlit(".staging");
        assert(".staging"@ =~= staging_directory());
        lemma_staging_place(id@, attempt as nat);
    }
    location_in(".staging", id, attempt)
}

/// No character of a backup's name parts segments, and the name is
/// neither empty nor one of the names `.` and `..`.
pub proof fn lemma_backup_name(id: Seq<char>, attempt: nat)
    ensures
        forall|i: int|
            0 <= i < backup_name(id, attempt).len() ==> !is_separator(
                #[trigger] backup_name(id, attempt)[i],
            ),
        counts(backup_name(id, attempt)),
        backup_name(id, attempt) != seq!['.', '.'],
{
    let name = backup_name(id, attempt);
    let safe = safe_name(id);
    lemma_decimal_digits(attempt);
    assert forall|i: int| 0 <= i < name.len() implies !is_separator(#[trigger] name[i]) by {
        if i < safe.len() {
            assert(name[i] == safe[i]);
        } else if i == safe.len() {
            assert(name[i] == '-');
        } else {
            assert(name[i] == decimal(attempt)[i - safe.len() - 1]);
        }
    }
    assert(name.len() >= 2);
    assert(name[safe.len() as int] == '-');
    assert(name[name.len() - 1] == decimal(attempt)[decimal(attempt).len() - 1]);
    if name == seq!['.'] {
        assert(seq!['.'].len() == 1);
    }
    if name == seq!['.', '.'] {
        assert(seq!['.', '.'].len() == 2);
        assert(seq!['.', '.'][1] == '.');
    }
}

/// Whether a directory's name is one segment that opens a relative path:
/// no separator, no colon in second place, and more than two characters,
/// so that it is none of the names `.` and `..`.
pub open spec fn plain_directory(directory: Seq<char>) -> bool {
    &&& directory.len() > 2
    &&& directory[1] != ':'
    &&& forall|i: int| 0 <= i < directory.len() ==> !is_separator(#[trigger] directory[i])
}

/// What an attempt puts aside in a plain directory lies in that directory
/// under its name: the place is relative and never climbs, so it stays
/// below every root.
pub proof fn lemma_place_in(directory: Seq<char>, id: Seq<char>, attempt: nat)
    requires
        plain_directory(directory),
    ensures
        segments(place_in(directory, id, attempt)) == seq![directory, backup_name(id, attempt)],
        !is_absolute(place_in(directory, id, attempt)),
        !climbs(place_in(directory, id, attempt)),
        forall|root: Seq<char>| stays_below(root, place_in(directory, id, attempt)),
{
    let name = backup_name(id, attempt);
    let place = place_in(directory, id, attempt);
    lemma_backup_name(id, attempt);
    let dot = seq!['.'];
    let parent = seq!['.', '.'];
    assert(dot.len() == 1);
    assert(parent.len() == 2);
    lemma_two_segments(directory, name);
    assert(place[0] == directory[0]);
    assert(place[1] == directory[1]);
    let parts = segments(place);
    assert(parts.len() == 2);
    assert(parts[0] == directory);
    assert(parts[1] == name);
    assert(!parts.contains(parent)) by {
        if parts.contains(parent) {
            let i = choose|i: int| 0 <= i < parts.len() && parts[i] == parent;
            assert(i == 0 || i == 1);
        }
    }
}

/// A backup lies in the directory of the backups, under its name, and
/// stays below every root.
pub proof fn lemma_backup_place(id: Seq<char>, attempt: nat)
    ensures
        segments(backup_place(id, attempt)) == seq![backup_directory(), backup_name(id, attempt)],
        !is_absolute(backup_place(id, attempt)),
        !climbs(backup_place(id, attempt)),
        forall|root: Seq<char>| stays_below(root, backup_place(id, attempt)),
{
    let directory = backup_directory();
    assert(directory.len() == 8);
    assert(directory[1] == 'b');
    lemma_place_in(directory, id, attempt);
}

/// A staged payload lies in the staging directory, under its name, and
/// stays below every root. It never lies where a backup does.
pub proof fn lemma_staging_place(id: Seq<char>, attempt: nat)
    ensures
        segments(staging_place(id, attempt)) == seq![
            staging_directory(),
            backup_name(id, attempt),
        ],
        !is_absolute(staging_place(id, attempt)),
        !climbs(staging_place(id, attempt)),
        forall|root: Seq<char>| stays_below(root, staging_place(id, attempt)),
        forall|other: Seq<char>, earlier: nat|
            segments(staging_place(id, attempt)) != segments(#[trigger] backup_place(other, earlier)),
{
    let directory = staging_directory();
    assert(directory.len() == 8);
    assert(directory[1] == 's');
    lemma_place_in(directory, id, attempt);
    assert forall|other: Seq<char>, earlier: nat|
        segments(staging_place(id, attempt)) != segments(
            #[trigger] backup_place(other, earlier),
        ) by {
        lemma_backup_place(other, earlier);
        assert(backup_directory()[1] == 'b');
        assert(segments(staging_place(id, attempt))[0] == directory);
        assert(segments(backup_place(other, earlier))[0] == backup_directory());
    }
}

} // verus!
