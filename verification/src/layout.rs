//! The static key layout: which physical key plays which note, in which
//! display order, and which sample file holds each note.
//!
//! The layout is immutable configuration, constructed once and read
//! everywhere else: the renderer walks it left to right, the sample store is
//! keyed by its key symbols, and the session resolves key presses against it.
//! Its invariant: no two entries share a physical key symbol, and no two
//! entries share a sample file name.

use vstd::prelude::*;

verus! {

/// One entry of the key layout: the physical key symbol, the note label it
/// displays, and the name of the sample file that holds the note.
pub struct KeyDef {
    /// The physical key symbol.
    pub key: char,
    /// The note label shown above the key, padded to the display width.
    pub note: &'static str,
    /// The sample file name that holds this note.
    pub file: &'static str,
}

/// The physical key symbols of the layout, in display order.
pub open spec fn layout_keys() -> Seq<char> {
    seq!['a', 'w', 's', 'e', 'd', 'f', 't', 'g', 'y', 'h', 'u', 'j', 'k']
}

/// The note labels of the layout, in display order.
pub open spec fn layout_notes() -> Seq<Seq<char>> {
    seq!["C "@, "Db"@, "D "@, "Eb"@, "E "@, "F "@, "Gb"@, "G "@, "Ab"@, "A "@, "Bb"@, "B "@, "C5"@]
}

/// The sample file names of the layout, in display order.
pub open spec fn layout_files() -> Seq<Seq<char>> {
    seq![
        "C4.wav"@,
        "Db4.wav"@,
        "D4.wav"@,
        "Eb4.wav"@,
        "E4.wav"@,
        "F4.wav"@,
        "Gb4.wav"@,
        "G4.wav"@,
        "Ab4.wav"@,
        "A4.wav"@,
        "Bb4.wav"@,
        "B4.wav"@,
        "C5.wav"@,
    ]
}

/// Whether `k` is a key of the layout.
pub open spec fn key_in_layout(k: char) -> bool {
    layout_keys().contains(k)
}

/// The key, if any, whose note is held by a sample file named `name`. File
/// names that belong to no layout entry resolve to `None` and are ignored by
/// the sample store.
pub open spec fn spec_key_for_file(name: Seq<char>) -> Option<char> {
    if name == "C4.wav"@ {
        Some('a')
    } else if name == "Db4.wav"@ {
        Some('w')
    } else if name == "D4.wav"@ {
        Some('s')
    } else if name == "Eb4.wav"@ {
        Some('e')
    } else if name == "E4.wav"@ {
        Some('d')
    } else if name == "F4.wav"@ {
        Some('f')
    } else if name == "Gb4.wav"@ {
        Some('t')
    } else if name == "G4.wav"@ {
        Some('g')
    } else if name == "Ab4.wav"@ {
        Some('y')
    } else if name == "A4.wav"@ {
        Some('h')
    } else if name == "Bb4.wav"@ {
        Some('u')
    } else if name == "B4.wav"@ {
        Some('j')
    } else if name == "C5.wav"@ {
        Some('k')
    } else {
        None
    }
}

/// No two layout entries share a physical key symbol.
pub proof fn lemma_layout_keys_distinct()
    ensures
        forall|i: int, j: int|
            0 <= i < layout_keys().len() && 0 <= j < layout_keys().len() && i != j
                ==> layout_keys()[i] != layout_keys()[j],
{
}

/// Whether `k` is a key of the layout.
pub fn key_is_mapped(k: char) -> (r: bool)
    ensures
        r == key_in_layout(k),
{
    let r = k == 'a' || k == 'w' || k == 's' || k == 'e' || k == 'd' || k == 'f' || k == 't'
        || k == 'g' || k == 'y' || k == 'h' || k == 'u' || k == 'j' || k == 'k';
    proof {
        if r {
            if k == 'a' {
                assert(layout_keys()[0] == k);
            } else if k == 'w' {
                assert(layout_keys()[1] == k);
            } else if k == 's' {
                assert(layout_keys()[2] == k);
            } else if k == 'e' {
                assert(layout_keys()[3] == k);
            } else if k == 'd' {
                assert(layout_keys()[4] == k);
            } else if k == 'f' {
                assert(layout_keys()[5] == k);
            } else if k == 't' {
                assert(layout_keys()[6] == k);
            } else if k == 'g' {
                assert(layout_keys()[7] == k);
            } else if k == 'y' {
                assert(layout_keys()[8] == k);
            } else if k == 'h' {
                assert(layout_keys()[9] == k);
            } else if k == 'u' {
                assert(layout_keys()[10] == k);
            } else if k == 'j' {
                assert(layout_keys()[11] == k);
            } else {
                assert(layout_keys()[12] == k);
            }
        } else {
            assert(forall|i: int| 0 <= i < layout_keys().len() ==> layout_keys()[i] != k);
        }
    }
    r
}

/// String equality by view, via the specified `String` comparison.
pub fn str_eq(a: &str, b: &str) -> (r: bool)
    ensures
        r == (a@ == b@),
{
    let sa: String = a.to_owned();
    let sb: String = b.to_owned();
    sa.eq(&sb)
}

/// The key, if any, whose note is held by a sample file named `name`.
pub fn key_for_file(name: &str) -> (r: Option<char>)
    ensures
        r == spec_key_for_file(name@),
{
    if str_eq(name, "C4.wav") {
        Some('a')
    } else if str_eq(name, "Db4.wav") {
        Some('w')
    } else if str_eq(name, "D4.wav") {
        Some('s')
    } else if str_eq(name, "Eb4.wav") {
        Some('e')
    } else if str_eq(name, "E4.wav") {
        Some('d')
    } else if str_eq(name, "F4.wav") {
        Some('f')
    } else if str_eq(name, "Gb4.wav") {
        Some('t')
    } else if str_eq(name, "G4.wav") {
        Some('g')
    } else if str_eq(name, "Ab4.wav") {
        Some('y')
    } else if str_eq(name, "A4.wav") {
        Some('h')
    } else if str_eq(name, "Bb4.wav") {
        Some('u')
    } else if str_eq(name, "B4.wav") {
        Some('j')
    } else if str_eq(name, "C5.wav") {
        Some('k')
    } else {
        None
    }
}

/// The full key layout, in display order.
pub fn key_layout() -> (v: Vec<KeyDef>)
    ensures
        v@.len() == layout_keys().len(),
        forall|i: int|
            0 <= i < v@.len() ==> (#[trigger] v@[i]).key == layout_keys()[i]
                && v@[i].note@ == layout_notes()[i] && v@[i].file@ == layout_files()[i],
{
    let mut v: Vec<KeyDef> = Vec::new();
    v.push(KeyDef { key: 'a', note: "C ", file: "C4.wav" });
    v.push(KeyDef { key: 'w', note: "Db", file: "Db4.wav" });
    v.push(KeyDef { key: 's', note: "D ", file: "D4.wav" });
    v.push(KeyDef { key: 'e', note: "Eb", file: "Eb4.wav" });
    v.push(KeyDef { key: 'd', note: "E ", file: "E4.wav" });
    v.push(KeyDef { key: 'f', note: "F ", file: "F4.wav" });
    v.push(KeyDef { key: 't', note: "Gb", file: "Gb4.wav" });
    v.push(KeyDef { key: 'g', note: "G ", file: "G4.wav" });
    v.push(KeyDef { key: 'y', note: "Ab", file: "Ab4.wav" });
    v.push(KeyDef { key: 'h', note: "A ", file: "A4.wav" });
    v.push(KeyDef { key: 'u', note: "Bb", file: "Bb4.wav" });
    v.push(KeyDef { key: 'j', note: "B ", file: "B4.wav" });
    v.push(KeyDef { key: 'k', note: "C5", file: "C5.wav" });
    v
}

/// The filename-to-key table: one row per layout entry, in display order.
/// Row `i` holds the layout's `i`th file name and `i`th key (so by
/// [`lemma_layout_file_resolution`] every row resolves under
/// [`spec_key_for_file`]), and every file name that [`spec_key_for_file`]
/// accepts appears as a row.
pub fn file_to_key_map() -> (v: Vec<(String, char)>)
    ensures
        v@.len() == layout_keys().len(),
        forall|i: int|
            0 <= i < v@.len() ==> (#[trigger] v@[i]).0@ == layout_files()[i] && v@[i].1
                == layout_keys()[i],
        forall|name: Seq<char>|
            #[trigger] spec_key_for_file(name) is Some ==> exists|i: int|
                0 <= i < v@.len() && (#[trigger] v@[i]).0@ == name,
{
    let mut v: Vec<(String, char)> = Vec::new();
    v.push((String::from_str("C4.wav"), 'a'));
    v.push((String::from_str("Db4.wav"), 'w'));
    v.push((String::from_str("D4.wav"), 's'));
    v.push((String::from_str("Eb4.wav"), 'e'));
    v.push((String::from_str("E4.wav"), 'd'));
    v.push((String::from_str("F4.wav"), 'f'));
    v.push((String::from_str("Gb4.wav"), 't'));
    v.push((String::from_str("G4.wav"), 'g'));
    v.push((String::from_str("Ab4.wav"), 'y'));
    v.push((String::from_str("A4.wav"), 'h'));
    v.push((String::from_str("Bb4.wav"), 'u'));
    v.push((String::from_str("B4.wav"), 'j'));
    v.push((String::from_str("C5.wav"), 'k'));
    proof {
        assert forall|name: Seq<char>| #[trigger] spec_key_for_file(name) is Some implies exists|i: int|
            0 <= i < v@.len() && (#[trigger] v@[i]).0@ == name by {
            if name == "C4.wav"@ {
                assert(v@[0].0@ == name);
            } else if name == "Db4.wav"@ {
                assert(v@[1].0@ == name);
            } else if name == "D4.wav"@ {
                assert(v@[2].0@ == name);
            } else if name == "Eb4.wav"@ {
                assert(v@[3].0@ == name);
            } else if name == "E4.wav"@ {
                assert(v@[4].0@ == name);
            } else if name == "F4.wav"@ {
                assert(v@[5].0@ == name);
            } else if name == "Gb4.wav"@ {
                assert(v@[6].0@ == name);
            } else if name == "G4.wav"@ {
                assert(v@[7].0@ == name);
            } else if name == "Ab4.wav"@ {
                assert(v@[8].0@ == name);
            } else if name == "A4.wav"@ {
                assert(v@[9].0@ == name);
            } else if name == "Bb4.wav"@ {
                assert(v@[10].0@ == name);
            } else if name == "B4.wav"@ {
                assert(v@[11].0@ == name);
            } else {
                assert(v@[12].0@ == name);
            }
        }
    }
    v
}

/// Each layout entry's file name resolves, under [`spec_key_for_file`], to
/// that entry's own key: the filename table and the resolution function
/// agree row by row.
pub proof fn lemma_layout_file_resolution()
    ensures
        forall|i: int|
            0 <= i < layout_files().len() ==> spec_key_for_file(#[trigger] layout_files()[i])
                == Some(layout_keys()[i]),
{
    reveal_strlit("C4.wav");
    reveal_strlit("Db4.wav");
    reveal_strlit("D4.wav");
    reveal_strlit("Eb4.wav");
    reveal_strlit("E4.wav");
    reveal_strlit("F4.wav");
    reveal_strlit("Gb4.wav");
    reveal_strlit("G4.wav");
    reveal_strlit("Ab4.wav");
    reveal_strlit("A4.wav");
    reveal_strlit("Bb4.wav");
    reveal_strlit("B4.wav");
    reveal_strlit("C5.wav");
    assert("C4.wav"@.len() == 6 && "C4.wav"@[0] == 'C' && "C4.wav"@[1] == '4');
    assert("Db4.wav"@.len() == 7 && "Db4.wav"@[0] == 'D');
    assert("D4.wav"@.len() == 6 && "D4.wav"@[0] == 'D');
    assert("Eb4.wav"@.len() == 7 && "Eb4.wav"@[0] == 'E');
    assert("E4.wav"@.len() == 6 && "E4.wav"@[0] == 'E');
    assert("F4.wav"@.len() == 6 && "F4.wav"@[0] == 'F');
    assert("Gb4.wav"@.len() == 7 && "Gb4.wav"@[0] == 'G');
    assert("G4.wav"@.len() == 6 && "G4.wav"@[0] == 'G');
    assert("Ab4.wav"@.len() == 7 && "Ab4.wav"@[0] == 'A');
    assert("A4.wav"@.len() == 6 && "A4.wav"@[0] == 'A');
    assert("Bb4.wav"@.len() == 7 && "Bb4.wav"@[0] == 'B');
    assert("B4.wav"@.len() == 6 && "B4.wav"@[0] == 'B');
    assert("C5.wav"@.len() == 6 && "C5.wav"@[0] == 'C' && "C5.wav"@[1] == '5');
    assert forall|i: int|
        0 <= i < layout_files().len() implies spec_key_for_file(#[trigger] layout_files()[i])
        == Some(layout_keys()[i]) by {
        if i == 0 {
            assert(spec_key_for_file("C4.wav"@) == Some('a'));
        } else if i == 1 {
            assert(spec_key_for_file("Db4.wav"@) == Some('w'));
        } else if i == 2 {
            assert(spec_key_for_file("D4.wav"@) == Some('s'));
        } else if i == 3 {
            assert(spec_key_for_file("Eb4.wav"@) == Some('e'));
        } else if i == 4 {
            assert(spec_key_for_file("E4.wav"@) == Some('d'));
        } else if i == 5 {
            assert(spec_key_for_file("F4.wav"@) == Some('f'));
        } else if i == 6 {
            assert(spec_key_for_file("Gb4.wav"@) == Some('t'));
        } else if i == 7 {
            assert(spec_key_for_file("G4.wav"@) == Some('g'));
        } else if i == 8 {
            assert(spec_key_for_file("Ab4.wav"@) == Some('y'));
        } else if i == 9 {
            assert(spec_key_for_file("A4.wav"@) == Some('h'));
        } else if i == 10 {
            assert(spec_key_for_file("Bb4.wav"@) == Some('u'));
        } else if i == 11 {
            assert(spec_key_for_file("B4.wav"@) == Some('j'));
        } else {
            assert(spec_key_for_file("C5.wav"@) == Some('k'));
        }
    }
}

/// The thirteen sample file names are pairwise distinct as character
/// sequences: each layout entry owns its own file.
pub proof fn lemma_file_names_disjoint()
    ensures
        forall|i: int, j: int|
            0 <= i < layout_files().len() && 0 <= j < layout_files().len() && i != j
                ==> layout_files()[i] != layout_files()[j],
{
    lemma_layout_file_resolution();
    lemma_layout_keys_distinct();
    assert forall|i: int, j: int|
        0 <= i < layout_files().len() && 0 <= j < layout_files().len() && i
        != j implies layout_files()[i] != layout_files()[j] by {
        if layout_files()[i] == layout_files()[j] {
            assert(spec_key_for_file(layout_files()[i]) == spec_key_for_file(layout_files()[j]));
            assert(layout_keys()[i] == layout_keys()[j]);
        }
    }
}

} // verus!
