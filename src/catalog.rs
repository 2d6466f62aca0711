//! The fixed catalog of animals and the case-insensitive lookup of a name in it.
use vstd::prelude::*;

verus! {

/// The host that every animal URL must name.
pub const HOST: &'static str = "animal-hunt.red-badger.com";

/// Number of entries in the catalog.
pub const ANIMAL_COUNT: usize = 10;

/// Name of catalog entry `i`.
pub open spec fn spec_animal_name(i: int) -> Seq<char> {
    if i == 0 {
        "crocodile"@
    } else if i == 1 {
        "badger"@
    } else if i == 2 {
        "sloth"@
    } else if i == 3 {
        "kangaroo"@
    } else if i == 4 {
        "pig"@
    } else if i == 5 {
        "dolphin"@
    } else if i == 6 {
        "zebra"@
    } else if i == 7 {
        "giraffe"@
    } else if i == 8 {
        "mouse"@
    } else {
        "flamingo"@
    }
}

/// Symbol of catalog entry `i`.
pub open spec fn spec_animal_emoji(i: int) -> Seq<char> {
    if i == 0 {
        "🐊"@
    } else if i == 1 {
        "🦡"@
    } else if i == 2 {
        "🦥"@
    } else if i == 3 {
        "🦘"@
    } else if i == 4 {
        "🐖"@
    } else if i == 5 {
        "🐬"@
    } else if i == 6 {
        "🦓"@
    } else if i == 7 {
        "🦒"@
    } else if i == 8 {
        "🐁"@
    } else {
        "🦩"@
    }
}

pub fn animal_name(i: usize) -> (r: &'static str)
    requires
        i < ANIMAL_COUNT,
    ensures
        r@ == spec_animal_name(i as int),
{
    if i == 0 {
        "crocodile"
    } else if i == 1 {
        "badger"
    } else if i == 2 {
        "sloth"
    } else if i == 3 {
        "kangaroo"
    } else if i == 4 {
        "pig"
    } else if i == 5 {
        "dolphin"
    } else if i == 6 {
        "zebra"
    } else if i == 7 {
        "giraffe"
    } else if i == 8 {
        "mouse"
    } else {
        "flamingo"
    }
}

pub fn animal_emoji(i: usize) -> (r: &'static str)
    requires
        i < ANIMAL_COUNT,
    ensures
        r@ == spec_animal_emoji(i as int),
{
    if i == 0 {
        "🐊"
    } else if i == 1 {
        "🦡"
    } else if i == 2 {
        "🦥"
    } else if i == 3 {
        "🦘"
    } else if i == 4 {
        "🐖"
    } else if i == 5 {
        "🐬"
    } else if i == 6 {
        "🦓"
    } else if i == 7 {
        "🦒"
    } else if i == 8 {
        "🐁"
    } else {
        "🦩"
    }
}

/// ASCII lower-casing of one character; every other character is kept.
pub open spec fn spec_ascii_lower(c: char) -> char {
    if 'A' <= c && c <= 'Z' {
        ((c as u8) + 32) as char
    } else {
        c
    }
}

/// `a` and `b` are equal once both are lower-cased.
pub open spec fn same_ignoring_case(a: Seq<char>, b: Seq<char>) -> bool {
    &&& a.len() == b.len()
    &&& forall|j: int| 0 <= j < a.len() ==> spec_ascii_lower(#[trigger] a[j]) == spec_ascii_lower(b[j])
}

/// First catalog index at or after `from` whose name matches `name` ignoring case.
pub open spec fn lookup_from(name: Seq<char>, from: int) -> Option<int>
    decreases ANIMAL_COUNT - from,
{
    if from < 0 || from >= ANIMAL_COUNT {
        None
    } else if same_ignoring_case(spec_animal_name(from), name) {
        Some(from)
    } else {
        lookup_from(name, from + 1)
    }
}

/// The catalog entry that `name` names, ignoring case; the first one wins.
pub open spec fn lookup(name: Seq<char>) -> Option<int> {
    lookup_from(name, 0)
}

fn ascii_lower(c: char) -> (r: char)
    ensures
        r == spec_ascii_lower(c),
{
    if 'A' <= c && c <= 'Z' {
        ((c as u8) + 32) as char
    } else {
        c
    }
}

/// Compares two strings, ASCII letters without regard to case.
pub fn eq_ignoring_case(a: &str, b: &str) -> (r: bool)
    ensures
        r == same_ignoring_case(a@, b@),
{
    let n = a.unicode_len();
    if n != b.unicode_len() {
        return false;
    }
    let mut j: usize = 0;
    while j < n
        invariant
            n == a@.len(),
            n == b@.len(),
            j <= n,
            forall|k: int| 0 <= k < j ==> spec_ascii_lower(#[trigger] a@[k]) == spec_ascii_lower(b@[k]),
        decreases n - j,
    {
        if ascii_lower(a.get_char(j)) != ascii_lower(b.get_char(j)) {
            return false;
        }
        j = j + 1;
    }
    true
}

/// Index of the catalog entry named `name`, ignoring case.
pub fn find_animal(name: &str) -> (r: Option<usize>)
    ensures
        match r {
            Some(i) => lookup(name@) == Some(i as int) && i < ANIMAL_COUNT,
            None => lookup(name@) is None,
        },
{
    let mut i: usize = 0;
    while i < ANIMAL_COUNT
        invariant
            i <= ANIMAL_COUNT,
            lookup(name@) == lookup_from(name@, i as int),
        decreases ANIMAL_COUNT - i,
    {
        if eq_ignoring_case(animal_name(i), name) {
            return Some(i);
        }
        i = i + 1;
    }
    None
}

} // verus!
