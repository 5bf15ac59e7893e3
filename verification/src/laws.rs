//! Laws of the session's effect model.
//!
//! The session's contracts pin each event's effect list down exactly; the
//! proof functions here state the behavioural guarantees that follow, so a
//! reader sees them spelled out rather than having to derive them: strict
//! monophony along every effect trace, exactly one voice start per playable
//! press, and the highlight/hold/clear round trip of every mapped press.

use vstd::prelude::*;

use crate::layout::key_in_layout;
use crate::session::Effect;
use crate::session::HOLD_MS;
use crate::session::exit_effects;
use crate::session::key_press_effects;
use crate::voice::MAX_VOICE_SECS;

verus! {

/// How many voices are audible after performing `fx` in order, starting
/// from `init` audible voices: a stop silences everything, a start adds one
/// voice, every other effect leaves the audio untouched.
pub open spec fn voices_after(init: nat, fx: Seq<Effect>) -> nat
    decreases fx.len(),
{
    if fx.len() == 0 {
        init
    } else {
        let prev = voices_after(init, fx.drop_last());
        match fx.last() {
            Effect::StopVoice => 0,
            Effect::StartVoice(_) => prev + 1,
            _ => prev,
        }
    }
}

/// How many voice starts `fx` contains.
pub open spec fn starts_in(fx: Seq<Effect>) -> nat
    decreases fx.len(),
{
    if fx.len() == 0 {
        0
    } else {
        starts_in(fx.drop_last()) + if fx.last() is StartVoice {
            1nat
        } else {
            0nat
        }
    }
}

/// One unfolding of [`voices_after`] along a prefix.
proof fn lemma_voices_step(init: nat, s: Seq<Effect>, n: int)
    requires
        1 <= n <= s.len(),
    ensures
        voices_after(init, s.take(n)) == match s[n - 1] {
            Effect::StopVoice => 0nat,
            Effect::StartVoice(_) => voices_after(init, s.take(n - 1)) + 1,
            _ => voices_after(init, s.take(n - 1)),
        },
{
    assert(s.take(n).drop_last() =~= s.take(n - 1));
    assert(s.take(n).last() == s[n - 1]);
}

/// One unfolding of [`starts_in`] along a prefix.
proof fn lemma_starts_step(s: Seq<Effect>, n: int)
    requires
        1 <= n <= s.len(),
    ensures
        starts_in(s.take(n)) == starts_in(s.take(n - 1)) + if s[n - 1] is StartVoice {
            1nat
        } else {
            0nat
        },
{
    assert(s.take(n).drop_last() =~= s.take(n - 1));
    assert(s.take(n).last() == s[n - 1]);
}

/// A full sequence is its own `len`-prefix.
proof fn lemma_take_all(s: Seq<Effect>)
    ensures
        s.take(s.len() as int) =~= s,
{
}

/// Strict monophony: performing a key press's effect list, starting from at
/// most one audible voice, never makes two voices audible — at every point
/// of the trace at most one voice sounds. Moreover, when a voice was
/// sounding, every voice start is preceded by a stop.
pub proof fn lemma_monophony(k: char, sounding: bool, plays: bool, n: int)
    requires
        0 <= n <= key_press_effects(k, sounding, plays).len(),
    ensures
        voices_after(
            if sounding {
                1nat
            } else {
                0nat
            },
            key_press_effects(k, sounding, plays).take(n),
        ) <= 1,
        forall|i: int|
            0 <= i < n && (#[trigger] key_press_effects(k, sounding, plays)[i]) is StartVoice
                && sounding ==> exists|j: int|
                0 <= j < i && (#[trigger] key_press_effects(k, sounding, plays)[j])
                    is StopVoice,
{
    let fx = key_press_effects(k, sounding, plays);
    let init: nat = if sounding {
        1nat
    } else {
        0nat
    };
    assert(fx.take(0) =~= Seq::<Effect>::empty());
    assert(voices_after(init, fx.take(0)) == init);
    if key_in_layout(k) {
        if n >= 1 {
            lemma_voices_step(init, fx, 1);
        }
        if n >= 2 {
            lemma_voices_step(init, fx, 2);
        }
        if n >= 3 {
            lemma_voices_step(init, fx, 3);
        }
        if n >= 4 {
            lemma_voices_step(init, fx, 4);
        }
        if n >= 5 {
            lemma_voices_step(init, fx, 5);
        }
        if plays && sounding {
            assert(fx[1] is StopVoice);
            assert forall|i: int|
                0 <= i < n && (#[trigger] fx[i]) is StartVoice && sounding implies exists|j: int|
                0 <= j < i && (#[trigger] fx[j]) is StopVoice by {
                assert(fx[1] is StopVoice && 1 < i);
            }
        }
    }
}

/// One trigger per playable press, none otherwise: the effect list of a key
/// press starts exactly one voice when the key is mapped with a loaded,
/// decoded sample, and none in every other case — in particular, an
/// unmapped key's list is empty (no render change, no trigger), and every
/// started voice is truncated at the fixed bound.
pub proof fn lemma_trigger_exactly_once(k: char, sounding: bool, plays: bool)
    ensures
        starts_in(key_press_effects(k, sounding, plays)) == if key_in_layout(k) && plays {
            1nat
        } else {
            0nat
        },
        !key_in_layout(k) ==> key_press_effects(k, sounding, plays) =~= Seq::<Effect>::empty(),
        forall|i: int|
            0 <= i < key_press_effects(k, sounding, plays).len()
                && (#[trigger] key_press_effects(k, sounding, plays)[i]) is StartVoice
                ==> key_press_effects(k, sounding, plays)[i] == Effect::StartVoice(MAX_VOICE_SECS),
{
    let fx = key_press_effects(k, sounding, plays);
    assert(fx.take(0) =~= Seq::<Effect>::empty());
    assert(starts_in(fx.take(0)) == 0);
    if key_in_layout(k) {
        lemma_starts_step(fx, 1);
        lemma_starts_step(fx, 2);
        lemma_starts_step(fx, 3);
        if fx.len() >= 4 {
            lemma_starts_step(fx, 4);
        }
        if fx.len() >= 5 {
            lemma_starts_step(fx, 5);
        }
    }
    lemma_take_all(fx);
}

/// The render round trip of a mapped press: the first effect is the one
/// highlighted frame for the pressed key, the last is the one cleared
/// frame, and the hold of fixed duration stands directly before the clear —
/// no other frame is painted in between, so every highlighted frame is
/// followed, after the hold, by exactly one cleared frame before the next
/// event is processed.
pub proof fn lemma_render_round_trip(k: char, sounding: bool, plays: bool)
    requires
        key_in_layout(k),
    ensures
        key_press_effects(k, sounding, plays).first() == Effect::Highlight(k),
        key_press_effects(k, sounding, plays).last() == Effect::Clear,
        key_press_effects(k, sounding, plays)[key_press_effects(k, sounding, plays).len() - 2]
            == Effect::Hold(HOLD_MS),
        forall|i: int|
            0 < i < key_press_effects(k, sounding, plays).len()
                ==> !((#[trigger] key_press_effects(k, sounding, plays)[i]) is Highlight),
        forall|i: int|
            0 <= i < key_press_effects(k, sounding, plays).len() - 1
                ==> !((#[trigger] key_press_effects(k, sounding, plays)[i]) is Clear),
{
}

/// The exit key's effect list: it stops the voice exactly when one was
/// sounding, and paints no frame whatever the state — the session ends
/// without further render changes.
pub proof fn lemma_exit_stops_voice(sounding: bool)
    ensures
        exit_effects(sounding).len() == if sounding {
            1int
        } else {
            0int
        },
        sounding ==> exit_effects(sounding)[0] == Effect::StopVoice,
        forall|i: int|
            0 <= i < exit_effects(sounding).len() ==> !((#[trigger] exit_effects(sounding)[i])
                is Highlight) && !(exit_effects(sounding)[i] is Clear),
{
}

} // verus!
