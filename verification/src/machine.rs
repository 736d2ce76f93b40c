//! The session state machine, modelled at the specification level. A session
//! snapshot is abstracted as an `AppView`; every executable operation on a
//! session promises that its result is exactly one of the view transitions
//! defined here, and the laws at the bottom are proved once about the
//! transitions themselves.
use vstd::prelude::*;
use crate::metrics::MAX_PASSAGE_LEN;
use crate::metrics::accuracy_of;
use crate::metrics::wpm_of;

verus! {

/// The screen the session is on. Only `Typing` accepts characters for
/// matching; the other screens treat keystrokes as mode commands or ignore
/// them.
#[derive(Clone, Copy, PartialEq, Eq, Structural, Debug)]
pub enum CurrentScreen {
    /// Browsing, not yet typing.
    Idle,
    /// An active attempt.
    Typing,
    /// The attempt finished; metrics are displayed.
    Results,
    /// The quit-confirmation overlay.
    ConfirmExit,
}

/// Which half of a key/value pair the side editor currently edits.
#[derive(Clone, Copy, PartialEq, Eq, Structural, Debug)]
pub enum CurrentlyEditing {
    Key,
    Value,
}

/// The verdict on one keystroke in `Typing` mode.
#[derive(Clone, Copy, PartialEq, Eq, Structural, Debug)]
pub enum MatchOutcome {
    /// The keystroke matched the expected character.
    Correct,
    /// The keystroke missed the expected character.
    Incorrect,
    /// The keystroke matched the last character: the attempt is complete.
    Completed,
}

/// A keystroke event, already stripped to what the engine decides on.
#[derive(Clone, Copy, PartialEq, Eq, Structural, Debug)]
pub enum Keystroke {
    Char(char),
    Enter,
    Backspace,
    Esc,
    Tab,
    Other,
}

/// What the surrounding event loop should do after a keystroke was handled.
#[derive(Clone, Copy, PartialEq, Eq, Structural, Debug)]
pub enum Flow {
    /// Keep reading events.
    Continue,
    /// The user confirmed the quit request: leave the loop.
    Terminate,
}

/// The mathematical shape of a session: every field of the executable
/// session, with text as character sequences and counters as integers.
#[verifier::ext_equal]
pub struct AppView {
    /// The fixed reference text of the session.
    pub passage: Seq<char>,
    /// The text the rendering collaborator displays (the untyped remainder
    /// during an attempt).
    pub current: Seq<char>,
    /// The characters accepted so far: always a prefix of the passage.
    pub typed: Seq<char>,
    /// The side editor's value box.
    pub value_input: Seq<char>,
    /// Index of the next expected passage character; equals `typed.len()`.
    pub cursor: int,
    /// True while the character at the cursor is mismatched and uncorrected.
    pub wrong: bool,
    /// Counted mistakes: at most one per passage position.
    pub mistakes: int,
    /// The rounded accuracy percentage, as last recomputed.
    pub accuracy: int,
    /// Net words-per-minute, absent until first computed.
    pub wpm: Option<int>,
    /// The clock reading (in milliseconds) when typing started.
    pub start_time: Option<int>,
    /// Milliseconds between the armed clock and the last speed query.
    pub elapsed_ms: Option<int>,
    /// The screen the session is on.
    pub screen: CurrentScreen,
    /// The side editor's mode, if it is open.
    pub editing: Option<CurrentlyEditing>,
    /// The key/value pairs saved by the side editor.
    pub pairs: Seq<(Seq<char>, Seq<char>)>,
    /// The left hand's hint overlay.
    pub left_overlay: Seq<char>,
    /// The right hand's hint overlay.
    pub right_overlay: Seq<char>,
}

/// The session invariant. Beyond the structural facts (the typed buffer is a
/// prefix of the passage and the cursor tracks it), it pins the two rules the
/// metrics depend on: the mistake counter never exceeds the typed length by
/// more than the pending wrong flag, and an idle session is pristine.
pub open spec fn inv(v: AppView) -> bool {
    &&& v.passage.len() <= MAX_PASSAGE_LEN
    &&& v.typed.len() <= v.passage.len()
    &&& v.typed == v.passage.take(v.typed.len() as int)
    &&& v.cursor == v.typed.len()
    &&& 0 <= v.mistakes
    &&& v.mistakes <= v.typed.len() + (if v.wrong {
        1int
    } else {
        0int
    })
    &&& (v.wrong ==> v.typed.len() < v.passage.len())
    &&& (v.screen is Idle ==> v.typed.len() == 0 && v.mistakes == 0 && !v.wrong
        && v.start_time is None)
}

/// A full reset: the attempt's buffers, counters and clock go back to their
/// pristine values, the displayed text becomes the whole passage again, and
/// the session returns to `Idle`. The passage, the overlays and the side
/// editor's saved pairs survive.
pub open spec fn reset_view(v: AppView) -> AppView {
    AppView {
        current: v.passage,
        typed: Seq::empty(),
        value_input: v.value_input,
        cursor: 0,
        wrong: false,
        mistakes: 0,
        accuracy: 100,
        wpm: Some(0),
        start_time: None,
        elapsed_ms: None,
        screen: CurrentScreen::Idle,
        editing: None,
        ..v
    }
}

/// Entering `Typing` from `Idle`: the clock is armed with the present moment.
pub open spec fn start_view(v: AppView, now_ms: int) -> AppView {
    AppView { screen: CurrentScreen::Typing, start_time: Some(now_ms), ..v }
}

/// A quit request from any screen: the confirmation overlay opens.
pub open spec fn quit_view(v: AppView) -> AppView {
    AppView { screen: CurrentScreen::ConfirmExit, ..v }
}

/// The attempt is declared finished: the results screen opens.
pub open spec fn finish_view(v: AppView) -> AppView {
    AppView { screen: CurrentScreen::Results, ..v }
}

/// Accuracy recomputed from the passage length and the mistakes so far.
pub open spec fn accuracy_view(v: AppView) -> AppView {
    AppView { accuracy: accuracy_of(v.passage.len() as int, v.mistakes), ..v }
}

/// Typing speed recomputed against the clock reading `now_ms`. Before the
/// clock is armed the speed is reported as 0; a clock running backwards
/// counts as no time elapsed.
pub open spec fn wpm_view(v: AppView, now_ms: int) -> AppView {
    match v.start_time {
        None => AppView { wpm: Some(0), ..v },
        Some(st) => {
            let ms = if now_ms >= st {
                now_ms - st
            } else {
                0
            };
            AppView {
                elapsed_ms: Some(ms),
                wpm: Some(wpm_of(v.typed.len() as int, v.mistakes, ms / 1000)),
                ..v
            }
        },
    }
}

/// One keystroke matched against the expected character. A match clears the
/// wrong flag and appends the character — the only way the cursor advances —
/// and a match on the last character completes the attempt. A mismatch counts
/// one mistake and recomputes the accuracy, but only if the position was not
/// already flagged wrong: a wrong key held down is not counted twice, and
/// changes nothing at all.
pub open spec fn keystroke_step(v: AppView, c: char) -> (AppView, MatchOutcome)
    recommends
        inv(v),
        v.screen is Typing,
        v.typed.len() < v.passage.len(),
{
    let expected = v.passage[v.typed.len() as int];
    if c == expected {
        let typed2 = v.typed.push(c);
        let done = typed2.len() == v.passage.len();
        (
            AppView {
                typed: typed2,
                cursor: typed2.len() as int,
                current: v.passage.skip(typed2.len() as int),
                wrong: false,
                screen: if done {
                    CurrentScreen::Results
                } else {
                    CurrentScreen::Typing
                },
                ..v
            },
            if done {
                MatchOutcome::Completed
            } else {
                MatchOutcome::Correct
            },
        )
    } else if !v.wrong {
        (
            AppView {
                wrong: true,
                mistakes: v.mistakes + 1,
                accuracy: accuracy_of(v.passage.len() as int, v.mistakes + 1),
                ..v
            },
            MatchOutcome::Incorrect,
        )
    } else {
        (v, MatchOutcome::Incorrect)
    }
}

/// The side editor's mode after one toggle.
pub open spec fn toggled(e: Option<CurrentlyEditing>) -> Option<CurrentlyEditing> {
    match e {
        None => Some(CurrentlyEditing::Key),
        Some(CurrentlyEditing::Key) => Some(CurrentlyEditing::Value),
        Some(CurrentlyEditing::Value) => Some(CurrentlyEditing::Key),
    }
}

/// The whole keystroke dispatch: which inputs are legal on which screen, and
/// what each does. `i` starts an attempt (from the results screen it resets
/// first, so the typed buffer re-enters `Typing` empty), `q` asks to quit,
/// `y`/`n` answer the confirmation, escape or enter abandon or acknowledge an
/// attempt, and in `Typing` a character is matched and the speed recomputed.
/// Everything else is ignored.
pub open spec fn step(v: AppView, k: Keystroke, now_ms: int) -> (AppView, Flow)
    recommends
        inv(v),
{
    match v.screen {
        CurrentScreen::Idle => match k {
            Keystroke::Char(c) => if c == 'i' {
                (start_view(v, now_ms), Flow::Continue)
            } else if c == 'q' {
                (quit_view(v), Flow::Continue)
            } else {
                (v, Flow::Continue)
            },
            _ => (v, Flow::Continue),
        },
        CurrentScreen::Typing => match k {
            Keystroke::Char(c) => if v.typed.len() < v.passage.len() {
                (wpm_view(keystroke_step(v, c).0, now_ms), Flow::Continue)
            } else {
                (v, Flow::Continue)
            },
            Keystroke::Esc => (reset_view(v), Flow::Continue),
            _ => (v, Flow::Continue),
        },
        CurrentScreen::Results => match k {
            Keystroke::Char(c) => if c == 'i' {
                (start_view(reset_view(v), now_ms), Flow::Continue)
            } else if c == 'q' {
                (quit_view(v), Flow::Continue)
            } else {
                (v, Flow::Continue)
            },
            Keystroke::Esc => (reset_view(v), Flow::Continue),
            Keystroke::Enter => (reset_view(v), Flow::Continue),
            _ => (v, Flow::Continue),
        },
        CurrentScreen::ConfirmExit => match k {
            Keystroke::Char(c) => if c == 'y' {
                (v, Flow::Terminate)
            } else if c == 'n' {
                (reset_view(v), Flow::Continue)
            } else {
                (v, Flow::Continue)
            },
            _ => (v, Flow::Continue),
        },
    }
}

/// Resetting is idempotent: a second reset changes nothing.
pub proof fn lemma_reset_idempotent(v: AppView)
    ensures
        reset_view(reset_view(v)) == reset_view(v),
{
    assert(reset_view(reset_view(v)) =~= reset_view(v));
}

/// A reset lands in a state that satisfies the session invariant, from any
/// state at all.
pub proof fn lemma_reset_establishes_inv(v: AppView)
    requires
        v.passage.len() <= MAX_PASSAGE_LEN,
    ensures
        inv(reset_view(v)),
{
    assert(Seq::<char>::empty() =~= v.passage.take(0));
}

/// One keystroke keeps the session invariant.
pub proof fn lemma_keystroke_preserves_inv(v: AppView, c: char)
    requires
        inv(v),
        v.screen is Typing,
        v.typed.len() < v.passage.len(),
    ensures
        inv(keystroke_step(v, c).0),
{
    let expected = v.passage[v.typed.len() as int];
    if c == expected {
        assert(v.typed.push(c) =~= v.passage.take(v.typed.len() as int + 1));
    }
}

/// The whole dispatch keeps the session invariant, whatever the keystroke
/// and whatever the clock says.
pub proof fn lemma_step_preserves_inv(v: AppView, k: Keystroke, now_ms: int)
    requires
        inv(v),
    ensures
        inv(step(v, k, now_ms).0),
{
    match v.screen {
        CurrentScreen::Typing => match k {
            Keystroke::Char(c) => {
                if v.typed.len() < v.passage.len() {
                    lemma_keystroke_preserves_inv(v, c);
                }
            },
            Keystroke::Esc => lemma_reset_establishes_inv(v),
            _ => {},
        },
        CurrentScreen::Results => match k {
            Keystroke::Char(c) => {
                if c == 'i' {
                    lemma_reset_establishes_inv(v);
                }
            },
            Keystroke::Esc => lemma_reset_establishes_inv(v),
            Keystroke::Enter => lemma_reset_establishes_inv(v),
            _ => {},
        },
        CurrentScreen::ConfirmExit => match k {
            Keystroke::Char(c) => {
                if c == 'n' {
                    lemma_reset_establishes_inv(v);
                }
            },
            _ => {},
        },
        _ => {},
    }
}

/// The state after typing the whole remaining passage correctly, one
/// character at a time.
pub open spec fn type_remaining(v: AppView) -> AppView
    recommends
        inv(v),
        v.screen is Typing,
    decreases v.passage.len() - v.typed.len(),
{
    if v.typed.len() >= v.passage.len() {
        v
    } else {
        type_remaining(keystroke_step(v, v.passage[v.typed.len() as int]).0)
    }
}

/// Typing the rest of the passage without a single mismatch ends on the
/// results screen with the whole passage typed, and neither the mistake
/// count nor the accuracy moves along the way.
pub proof fn lemma_perfect_run(v: AppView)
    requires
        inv(v),
        v.screen is Typing,
        v.typed.len() < v.passage.len(),
    ensures
        type_remaining(v).screen is Results,
        type_remaining(v).typed == v.passage,
        type_remaining(v).mistakes == v.mistakes,
        type_remaining(v).accuracy == v.accuracy,
    decreases v.passage.len() - v.typed.len(),
{
    let c = v.passage[v.typed.len() as int];
    let v2 = keystroke_step(v, c).0;
    lemma_keystroke_preserves_inv(v, c);
    if v2.typed.len() == v.passage.len() {
        assert(v2.typed =~= v.passage);
    } else {
        lemma_perfect_run(v2);
    }
}

/// A flawless attempt: from a fresh `Typing` state, matching the full
/// passage character by character ends on the results screen with accuracy
/// still 100 and no mistake counted.
pub proof fn lemma_flawless_session(v: AppView)
    requires
        inv(v),
        v.screen is Typing,
        v.typed.len() < v.passage.len(),
        v.mistakes == 0,
        v.accuracy == 100,
    ensures
        type_remaining(v).screen is Results,
        type_remaining(v).accuracy == 100,
        type_remaining(v).mistakes == 0,
{
    lemma_perfect_run(v);
}

} // verus!
