//! Finger guidance: a fixed table assigns each practice character of a QWERTY
//! layout to one hand and a finger-column digit. From a passage the table
//! derives two overlays, one per hand, each exactly as long as the passage:
//! a cell holds the hint digit when that hand owns the character and a blank
//! otherwise, so the overlays stay positionally aligned with the passage.
use vstd::prelude::*;

verus! {

/// The blank overlay cell.
pub const BLANK_HINT: char = ' ';

/// Hint for a character struck by the left hand: a digit for the column
/// distance from the home position, and space as its own neutral hint.
pub open spec fn left_hint_of(c: char) -> Option<char> {
    if c == 'a' || c == 'q' || c == 'z' {
        Some('5')
    } else if c == 'w' || c == 's' || c == 'x' {
        Some('4')
    } else if c == 'e' || c == 'd' || c == 'c' {
        Some('3')
    } else if c == 'r' || c == 'f' || c == 'v' || c == 't' || c == 'g' || c == 'b' {
        Some('2')
    } else if c == ' ' {
        Some(' ')
    } else {
        None
    }
}

/// Hint for a character struck by the right hand, mirroring the left table.
pub open spec fn right_hint_of(c: char) -> Option<char> {
    if c == 'y' || c == 'h' || c == 'n' || c == 'u' || c == 'j' || c == 'm' {
        Some('2')
    } else if c == 'i' || c == 'k' || c == ',' {
        Some('3')
    } else if c == 'o' || c == 'l' || c == '.' {
        Some('4')
    } else if c == 'p' || c == ';' || c == '/' {
        Some('5')
    } else {
        None
    }
}

/// Looks a character up in the left hand's table.
pub fn left_hint(c: char) -> (h: Option<char>)
    ensures
        h == left_hint_of(c),
{
    if c == 'a' || c == 'q' || c == 'z' {
        Some('5')
    } else if c == 'w' || c == 's' || c == 'x' {
        Some('4')
    } else if c == 'e' || c == 'd' || c == 'c' {
        Some('3')
    } else if c == 'r' || c == 'f' || c == 'v' || c == 't' || c == 'g' || c == 'b' {
        Some('2')
    } else if c == ' ' {
        Some(' ')
    } else {
        None
    }
}

/// Looks a character up in the right hand's table.
pub fn right_hint(c: char) -> (h: Option<char>)
    ensures
        h == right_hint_of(c),
{
    if c == 'y' || c == 'h' || c == 'n' || c == 'u' || c == 'j' || c == 'm' {
        Some('2')
    } else if c == 'i' || c == 'k' || c == ',' {
        Some('3')
    } else if c == 'o' || c == 'l' || c == '.' {
        Some('4')
    } else if c == 'p' || c == ';' || c == '/' {
        Some('5')
    } else {
        None
    }
}

/// The overlay cell for one hint: the digit where the hand owns the
/// character, a blank everywhere else.
pub open spec fn hint_cell(h: Option<char>) -> char {
    match h {
        Some(d) => d,
        None => BLANK_HINT,
    }
}

/// The left hand's overlay, positionally aligned with the passage.
pub open spec fn left_overlay_of(passage: Seq<char>) -> Seq<char> {
    Seq::new(passage.len(), |i: int| hint_cell(left_hint_of(passage[i])))
}

/// The right hand's overlay, positionally aligned with the passage.
pub open spec fn right_overlay_of(passage: Seq<char>) -> Seq<char> {
    Seq::new(passage.len(), |i: int| hint_cell(right_hint_of(passage[i])))
}

/// Builds both overlays for a passage in one pass.
pub fn build_overlays(passage: &Vec<char>) -> (overlays: (Vec<char>, Vec<char>))
    ensures
        overlays.0@ == left_overlay_of(passage@),
        overlays.1@ == right_overlay_of(passage@),
{
    let mut lefts: Vec<char> = Vec::new();
    let mut rights: Vec<char> = Vec::new();
    let mut i: usize = 0;
    while i < passage.len()
        invariant
            i <= passage@.len(),
            lefts@.len() == i,
            rights@.len() == i,
            forall|j: int| 0 <= j < i ==> lefts@[j] == hint_cell(left_hint_of(passage@[j])),
            forall|j: int| 0 <= j < i ==> rights@[j] == hint_cell(right_hint_of(passage@[j])),
        decreases passage@.len() - i,
    {
        let c = passage[i];
        let l = match left_hint(c) {
            Some(d) => d,
            None => BLANK_HINT,
        };
        let r = match right_hint(c) {
            Some(d) => d,
            None => BLANK_HINT,
        };
        lefts.push(l);
        rights.push(r);
        i = i + 1;
    }
    proof {
        assert(lefts@ =~= left_overlay_of(passage@));
        assert(rights@ =~= right_overlay_of(passage@));
    }
    (lefts, rights)
}

/// The two hands' tables are disjoint: no character carries both a left-hand
/// and a right-hand hint.
pub proof fn lemma_hands_disjoint(c: char)
    ensures
        !(left_hint_of(c) is Some && right_hint_of(c) is Some),
{
}

/// A passage drawn entirely from the left hand's table gets a right-hand
/// overlay of nothing but blanks, still as long as the passage itself.
pub proof fn lemma_left_hand_passage_blank_right(passage: Seq<char>)
    requires
        forall|i: int| 0 <= i < passage.len() ==> left_hint_of(#[trigger] passage[i]) is Some,
    ensures
        right_overlay_of(passage).len() == passage.len(),
        forall|i: int| 0 <= i < passage.len() ==> #[trigger] right_overlay_of(passage)[i]
            == BLANK_HINT,
{
    assert forall|i: int| 0 <= i < passage.len() implies #[trigger] right_overlay_of(passage)[i]
        == BLANK_HINT by {
        lemma_hands_disjoint(passage[i]);
    }
}

/// A passage drawn entirely from the right hand's table gets a left-hand
/// overlay of nothing but blanks, still as long as the passage itself.
pub proof fn lemma_right_hand_passage_blank_left(passage: Seq<char>)
    requires
        forall|i: int| 0 <= i < passage.len() ==> right_hint_of(#[trigger] passage[i]) is Some,
    ensures
        left_overlay_of(passage).len() == passage.len(),
        forall|i: int| 0 <= i < passage.len() ==> #[trigger] left_overlay_of(passage)[i]
            == BLANK_HINT,
{
    assert forall|i: int| 0 <= i < passage.len() implies #[trigger] left_overlay_of(passage)[i]
        == BLANK_HINT by {
        lemma_hands_disjoint(passage[i]);
    }
}

} // verus!
