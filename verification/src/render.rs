//! Frame rendering: the text of one full-screen repaint.
//!
//! A frame shows the key row in fixed left-to-right layout order, with at
//! most one key highlighted: the highlighted key is wrapped in parentheses,
//! every other key sits plainly between spaces, and every cell is four
//! characters wide. The frame is returned as a list of text segments, the
//! highlighted cell marked, so the shell around the library can paint that
//! one segment in a distinct colour before writing the frame out.

use vstd::prelude::*;

use crate::layout::key_layout;
use crate::layout::layout_keys;

verus! {

/// One run of frame text; `highlighted` marks the cell of the pressed key.
pub struct Segment {
    /// The characters of this run.
    pub text: String,
    /// Whether this run is the highlighted key's cell.
    pub highlighted: bool,
}

/// The text above the key row: the title, the black-key guide lines, and the
/// indent of the key row.
pub open spec fn frame_header() -> Seq<char> {
    "Cliano Virtual Piano\n        w   e       t   y   u      \n        |   |       |   |   |      \n     "@
}

/// The text below the key row.
pub open spec fn frame_footer() -> Seq<char> {
    "\nPress keys to play notes. Press ESC to exit.\n"@
}

/// The four-character cell for key `k`: wrapped in parentheses when `k` is
/// the pressed key, plain otherwise.
pub open spec fn cell_text(k: char, pressed: Option<char>) -> Seq<char> {
    if pressed == Some(k) {
        seq!['(', k, ')', ' ']
    } else {
        seq![' ', k, ' ', ' ']
    }
}

/// Relies on `String::push`: appends exactly the given character.
#[verifier::external_body]
fn push_char(s: &mut String, c: char)
    ensures
        final(s)@ == old(s)@.push(c),
{
    s.push(c);
}

/// The cell segment for key `k` under `pressed`.
fn cell(k: char, pressed: Option<char>) -> (seg: Segment)
    ensures
        seg.text@ == cell_text(k, pressed),
        seg.highlighted == (pressed == Some(k)),
{
    let highlighted = match pressed {
        Some(p) => p == k,
        None => false,
    };
    let mut text = String::new();
    if highlighted {
        text.append("(");
        push_char(&mut text, k);
        text.append(") ");
    } else {
        text.append(" ");
        push_char(&mut text, k);
        text.append("  ");
    }
    proof {
        reveal_strlit("(");
        reveal_strlit(") ");
        reveal_strlit(" ");
        reveal_strlit("  ");
        assert(text@ =~= cell_text(k, pressed));
    }
    Segment { text, highlighted }
}

/// One full frame for the given pressed key (`None` for the cleared frame):
/// the header, one cell per layout key in display order, and the footer.
/// Exactly the pressed key's cell is highlighted; a cleared frame highlights
/// nothing.
pub fn render_frame(pressed: Option<char>) -> (v: Vec<Segment>)
    ensures
        v@.len() == layout_keys().len() + 2,
        v@[0].text@ == frame_header() && !v@[0].highlighted,
        v@[v@.len() - 1].text@ == frame_footer() && !v@[v@.len() - 1].highlighted,
        forall|i: int|
            0 <= i < layout_keys().len() ==> (#[trigger] v@[i + 1]).text@ == cell_text(
                layout_keys()[i],
                pressed,
            ) && v@[i + 1].highlighted == (pressed == Some(layout_keys()[i])),
{
    let mut v: Vec<Segment> = Vec::new();
    v.push(
        Segment {
            text: String::from_str(
                "Cliano Virtual Piano\n        w   e       t   y   u      \n        |   |       |   |   |      \n     ",
            ),
            highlighted: false,
        },
    );
    let keys = key_layout();
    let mut i: usize = 0;
    while i < keys.len()
        invariant
            i <= keys@.len(),
            keys@.len() == layout_keys().len(),
            forall|j: int| 0 <= j < keys@.len() ==> (#[trigger] keys@[j]).key == layout_keys()[j],
            v@.len() == i + 1,
            v@[0].text@ == frame_header() && !v@[0].highlighted,
            forall|j: int|
                0 <= j < i ==> (#[trigger] v@[j + 1]).text@ == cell_text(layout_keys()[j], pressed)
                    && v@[j + 1].highlighted == (pressed == Some(layout_keys()[j])),
        decreases keys@.len() - i,
    {
        let seg = cell(keys[i].key, pressed);
        v.push(seg);
        i = i + 1;
    }
    v.push(Segment { text: String::from_str("\nPress keys to play notes. Press ESC to exit.\n"), highlighted: false });
    v
}

} // verus!
