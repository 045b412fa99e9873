//! The ordered table of the encodings that detection can report, in
//! approximate order of frequency of use on the Web. The position of an
//! encoding in this table is how a guess is reported to the host.

use vstd::prelude::*;
use vstd::string::*;

verus! {

/// Number of entries in the registry.
pub const REGISTRY_LEN: usize = 26;

/// The canonical name of the registry entry at position `i`.
pub open spec fn registry_name(i: int) -> Seq<char> {
    if i == 0 {
        "UTF-8"@
    } else if i == 1 {
        "windows-1252"@
    } else if i == 2 {
        "windows-1251"@
    } else if i == 3 {
        "GBK"@
    } else if i == 4 {
        "Shift_JIS"@
    } else if i == 5 {
        "EUC-KR"@
    } else if i == 6 {
        "windows-1250"@
    } else if i == 7 {
        "windows-1256"@
    } else if i == 8 {
        "windows-1254"@
    } else if i == 9 {
        "Big5"@
    } else if i == 10 {
        "windows-874"@
    } else if i == 11 {
        "windows-1255"@
    } else if i == 12 {
        "windows-1253"@
    } else if i == 13 {
        "windows-1257"@
    } else if i == 14 {
        "windows-1258"@
    } else if i == 15 {
        "EUC-JP"@
    } else if i == 16 {
        "ISO-8859-2"@
    } else if i == 17 {
        "ISO-8859-7"@
    } else if i == 18 {
        "ISO-8859-5"@
    } else if i == 19 {
        "ISO-8859-4"@
    } else if i == 20 {
        "ISO-8859-6"@
    } else if i == 21 {
        "ISO-2022-JP"@
    } else if i == 22 {
        "KOI8-U"@
    } else if i == 23 {
        "ISO-8859-13"@
    } else if i == 24 {
        "IBM866"@
    } else {
        "ISO-8859-8"@
    }
}

/// Whether `name` is the name of some registry entry.
pub open spec fn is_registered(name: Seq<char>) -> bool {
    exists|i: int| 0 <= i < REGISTRY_LEN && #[trigger] registry_name(i) == name
}

/// The first position at or after `from` whose entry is named `name`, or
/// `REGISTRY_LEN` when there is none.
pub open spec fn position_from(name: Seq<char>, from: int) -> int
    decreases REGISTRY_LEN - from,
{
    if from < 0 || from >= REGISTRY_LEN {
        REGISTRY_LEN as int
    } else if registry_name(from) == name {
        from
    } else {
        position_from(name, from + 1)
    }
}

/// The position of the encoding named `name` in the registry, or
/// `REGISTRY_LEN` when it is not registered.
pub open spec fn registry_position(name: Seq<char>) -> int {
    position_from(name, 0)
}

/// The position found from `from` is a matching entry, and no entry between
/// `from` and it matches.
proof fn lemma_position_from(name: Seq<char>, from: int)
    requires
        0 <= from <= REGISTRY_LEN,
    ensures
        from <= position_from(name, from) <= REGISTRY_LEN,
        position_from(name, from) < REGISTRY_LEN ==> registry_name(position_from(name, from))
            == name,
        forall|j: int| from <= j < position_from(name, from) ==> registry_name(j) != name,
    decreases REGISTRY_LEN - from,
{
    if from < REGISTRY_LEN && registry_name(from) != name {
        lemma_position_from(name, from + 1);
    }
}

/// The registry position of a name is its first occurrence, and it is in
/// range exactly when the name is registered.
pub proof fn lemma_registry_position(name: Seq<char>)
    ensures
        0 <= registry_position(name) <= REGISTRY_LEN,
        is_registered(name) <==> registry_position(name) < REGISTRY_LEN,
        registry_position(name) < REGISTRY_LEN ==> registry_name(registry_position(name))
            == name,
        forall|j: int| 0 <= j < registry_position(name) ==> registry_name(j) != name,
{
    lemma_position_from(name, 0);
    if is_registered(name) {
        let i = choose|i: int| 0 <= i < REGISTRY_LEN && #[trigger] registry_name(i) == name;
        assert(!(i < registry_position(name)));
    }
}

/// The canonical name of the registry entry at position `index`.
pub fn registry_entry(index: usize) -> (r: &'static str)
    requires
        index < REGISTRY_LEN,
    ensures
        r@ == registry_name(index as int),
{
    match index {
        0 => "UTF-8",
        1 => "windows-1252",
        2 => "windows-1251",
        3 => "GBK",
        4 => "Shift_JIS",
        5 => "EUC-KR",
        6 => "windows-1250",
        7 => "windows-1256",
        8 => "windows-1254",
        9 => "Big5",
        10 => "windows-874",
        11 => "windows-1255",
        12 => "windows-1253",
        13 => "windows-1257",
        14 => "windows-1258",
        15 => "EUC-JP",
        16 => "ISO-8859-2",
        17 => "ISO-8859-7",
        18 => "ISO-8859-5",
        19 => "ISO-8859-4",
        20 => "ISO-8859-6",
        21 => "ISO-2022-JP",
        22 => "KOI8-U",
        23 => "ISO-8859-13",
        24 => "IBM866",
        _ => "ISO-8859-8",
    }
}

/// Whether two strings hold the same characters.
pub fn same_name(a: &str, b: &str) -> (r: bool)
    ensures
        r == (a@ == b@),
{
    let n = a.unicode_len();
    if n != b.unicode_len() {
        return false;
    }
    let mut i: usize = 0;
    while i < n
        invariant
            n == a@.len(),
            n == b@.len(),
            i <= n,
            forall|j: int| 0 <= j < i ==> a@[j] == b@[j],
        decreases n - i,
    {
        if a.get_char(i) != b.get_char(i) {
            return false;
        }
        i = i + 1;
    }
    assert(a@ =~= b@);
    true
}

/// The registry position of the encoding named `name`, if it is registered.
pub fn registry_index(name: &str) -> (r: Option<usize>)
    ensures
        r.is_some() <==> is_registered(name@),
        r.is_some() ==> r.unwrap() as int == registry_position(name@),
{
    proof {
        lemma_registry_position(name@);
    }
    let mut i: usize = 0;
    while i < REGISTRY_LEN
        invariant
            i <= REGISTRY_LEN,
            forall|j: int| 0 <= j < i ==> registry_name(j) != name@,
            0 <= registry_position(name@) <= REGISTRY_LEN,
            is_registered(name@) <==> registry_position(name@) < REGISTRY_LEN,
            registry_position(name@) < REGISTRY_LEN ==> registry_name(registry_position(name@))
                == name@,
            forall|j: int| 0 <= j < registry_position(name@) ==> registry_name(j) != name@,
        decreases REGISTRY_LEN - i,
    {
        if same_name(registry_entry(i), name) {
            return Some(i);
        }
        i = i + 1;
    }
    None
}

} // verus!
