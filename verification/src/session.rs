//! The executable session. `App` owns the passage, the typed buffer, the
//! counters, the clock bookkeeping and the hint overlays; every operation's
//! contract says that the new state is exactly the corresponding view
//! transition of `crate::machine`, so the laws proved there carry over to
//! the running code.
use vstd::prelude::*;
use vstd::string::StrSliceExecFns;
use crate::finger::build_overlays;
use crate::finger::left_overlay_of;
use crate::finger::right_overlay_of;
use crate::machine::AppView;
use crate::machine::CurrentScreen;
use crate::machine::CurrentlyEditing;
use crate::machine::Flow;
use crate::machine::finish_view;
use crate::machine::Keystroke;
use crate::machine::MatchOutcome;
use crate::machine::accuracy_view;
use crate::machine::inv;
use crate::machine::keystroke_step;
use crate::machine::lemma_keystroke_preserves_inv;
use crate::machine::lemma_reset_establishes_inv;
use crate::machine::quit_view;
use crate::machine::reset_view;
use crate::machine::start_view;
use crate::machine::step;
use crate::machine::toggled;
use crate::machine::wpm_view;
use crate::metrics::MAX_PASSAGE_LEN;
use crate::metrics::compute_accuracy;
use crate::metrics::compute_wpm;

verus! {

/// The passage a session practices when none is supplied.
pub open spec fn default_passage() -> Seq<char> {
    "one time leave part out who take all same ask should"@
}

/// One typing-practice session.
pub struct App {
    /// The fixed reference text.
    pub original_text: Vec<char>,
    /// The text the rendering collaborator displays.
    pub current_text: Vec<char>,
    /// The characters accepted so far.
    pub key_input: Vec<char>,
    /// The side editor's value box.
    pub value_input: Vec<char>,
    /// Index of the next expected passage character.
    pub cursor: usize,
    /// True while the current position is mismatched and uncorrected.
    pub wrong: bool,
    /// Counted mistakes.
    pub mistakes: u64,
    /// The rounded accuracy percentage, as last recomputed.
    pub accuracy: u64,
    /// Net words-per-minute, absent until first computed.
    pub wpm: Option<u64>,
    /// The clock reading (milliseconds) when typing started.
    pub start_time: Option<u64>,
    /// Milliseconds between the armed clock and the last speed query.
    pub elapsed_ms: Option<u64>,
    /// The screen the session is on.
    pub current_screen: CurrentScreen,
    /// The side editor's mode, if it is open.
    pub currently_editing: Option<CurrentlyEditing>,
    /// The key/value pairs saved by the side editor.
    pub pairs: Vec<(Vec<char>, Vec<char>)>,
    /// The left hand's hint overlay.
    pub left_overlay: Vec<char>,
    /// The right hand's hint overlay.
    pub right_overlay: Vec<char>,
}

impl View for App {
    type V = AppView;

    open spec fn view(&self) -> AppView {
        AppView {
            passage: self.original_text@,
            current: self.current_text@,
            typed: self.key_input@,
            value_input: self.value_input@,
            cursor: self.cursor as int,
            wrong: self.wrong,
            mistakes: self.mistakes as int,
            accuracy: self.accuracy as int,
            wpm: match self.wpm {
                Some(w) => Some(w as int),
                None => None,
            },
            start_time: match self.start_time {
                Some(t) => Some(t as int),
                None => None,
            },
            elapsed_ms: match self.elapsed_ms {
                Some(t) => Some(t as int),
                None => None,
            },
            screen: self.current_screen,
            editing: self.currently_editing,
            pairs: self.pairs@.map_values(|p: (Vec<char>, Vec<char>)| (p.0@, p.1@)),
            left_overlay: self.left_overlay@,
            right_overlay: self.right_overlay@,
        }
    }
}

/// A session state fresh out of the constructor, before the overlays are
/// derived: pristine counters, the clock unarmed, the whole passage on show.
pub open spec fn initial_view(passage: Seq<char>) -> AppView {
    AppView {
        passage: passage,
        current: passage,
        typed: Seq::empty(),
        value_input: Seq::empty(),
        cursor: 0,
        wrong: false,
        mistakes: 0,
        accuracy: 100,
        wpm: None,
        start_time: None,
        elapsed_ms: None,
        screen: CurrentScreen::Idle,
        editing: None,
        pairs: Seq::empty(),
        left_overlay: Seq::empty(),
        right_overlay: Seq::empty(),
    }
}

/// A fully started session: the initial state with both overlays derived.
pub open spec fn session_view(passage: Seq<char>) -> AppView {
    AppView {
        left_overlay: left_overlay_of(passage),
        right_overlay: right_overlay_of(passage),
        ..initial_view(passage)
    }
}

/// Collects the characters of a string slice into a vector.
pub fn chars_of(text: &str) -> (r: Vec<char>)
    ensures
        r@ == text@,
{
    let n = text.unicode_len();
    let mut r: Vec<char> = Vec::new();
    let mut i: usize = 0;
    while i < n
        invariant
            i <= n,
            n == text@.len(),
            r@.len() == i,
            forall|j: int| 0 <= j < i ==> r@[j] == text@[j],
        decreases n - i,
    {
        r.push(text.get_char(i));
        i = i + 1;
    }
    proof {
        assert(r@ =~= text@);
    }
    r
}

/// Copies a character vector.
fn clone_chars(v: &Vec<char>) -> (r: Vec<char>)
    ensures
        r@ == v@,
{
    let mut r: Vec<char> = Vec::new();
    let mut i: usize = 0;
    while i < v.len()
        invariant
            i <= v@.len(),
            r@.len() == i,
            forall|j: int| 0 <= j < i ==> r@[j] == v@[j],
        decreases v@.len() - i,
    {
        r.push(v[i]);
        i = i + 1;
    }
    proof {
        assert(r@ =~= v@);
    }
    r
}

/// Copies the tail of a character vector, from `from` on.
fn suffix_chars(v: &Vec<char>, from: usize) -> (r: Vec<char>)
    requires
        from <= v@.len(),
    ensures
        r@ == v@.skip(from as int),
{
    let mut r: Vec<char> = Vec::new();
    let mut i: usize = from;
    while i < v.len()
        invariant
            from <= i <= v@.len(),
            r@.len() == i - from,
            forall|j: int| 0 <= j < i - from ==> r@[j] == v@[j + from],
        decreases v@.len() - i,
    {
        r.push(v[i]);
        i = i + 1;
    }
    proof {
        assert(r@ =~= v@.skip(from as int));
    }
    r
}

/// A read-only copy of everything a rendering collaborator needs.
pub struct Snapshot {
    pub state: CurrentScreen,
    pub typed: Vec<char>,
    pub cursor: usize,
    pub wrong: bool,
    pub mistakes: u64,
    pub accuracy: u64,
    pub wpm: Option<u64>,
    pub left_overlay: Vec<char>,
    pub right_overlay: Vec<char>,
}

impl App {
    /// The session invariant, on the executable state.
    pub open spec fn wf(&self) -> bool {
        inv(self@)
    }

    /// A new session over the built-in passage, overlays not yet derived.
    pub fn new() -> (app: App)
        ensures
            app.wf(),
            app@ == initial_view(default_passage()),
    {
        proof {
            reveal_strlit("one time leave part out who take all same ask should");
        }
        let original = chars_of("one time leave part out who take all same ask should");
        let current = chars_of("one time leave part out who take all same ask should");
        let app = App {
            original_text: original,
            current_text: current,
            key_input: Vec::new(),
            value_input: Vec::new(),
            cursor: 0,
            wrong: false,
            mistakes: 0,
            accuracy: 100,
            wpm: None,
            start_time: None,
            elapsed_ms: None,
            current_screen: CurrentScreen::Idle,
            currently_editing: None,
            pairs: Vec::new(),
            left_overlay: Vec::new(),
            right_overlay: Vec::new(),
        };
        proof {
            assert(app@.pairs =~= Seq::<(Seq<char>, Seq<char>)>::empty());
            assert(app@ =~= initial_view(default_passage()));
            assert(app@.typed =~= app@.passage.take(0));
        }
        app
    }

    /// A new session over the given passage, with both overlays derived.
    pub fn start_session(text: &str) -> (app: App)
        requires
            text@.len() <= MAX_PASSAGE_LEN,
        ensures
            app.wf(),
            app@ == session_view(text@),
    {
        let original = chars_of(text);
        let current = chars_of(text);
        let (lefts, rights) = build_overlays(&original);
        let app = App {
            original_text: original,
            current_text: current,
            key_input: Vec::new(),
            value_input: Vec::new(),
            cursor: 0,
            wrong: false,
            mistakes: 0,
            accuracy: 100,
            wpm: None,
            start_time: None,
            elapsed_ms: None,
            current_screen: CurrentScreen::Idle,
            currently_editing: None,
            pairs: Vec::new(),
            left_overlay: lefts,
            right_overlay: rights,
        };
        proof {
            assert(app@.pairs =~= Seq::<(Seq<char>, Seq<char>)>::empty());
            assert(app@ =~= session_view(text@));
            assert(app@.typed =~= app@.passage.take(0));
        }
        app
    }

    /// Replaces the displayed text.
    pub fn edit_text(&mut self, text: &str)
        requires
            old(self).wf(),
        ensures
            final(self).wf(),
            final(self)@ == (AppView { current: text@, ..old(self)@ }),
    {
        self.current_text = chars_of(text);
    }

    /// Derives both hint overlays from the passage.
    pub fn add_map(&mut self)
        requires
            old(self).wf(),
        ensures
            final(self).wf(),
            final(self)@ == (AppView {
                left_overlay: left_overlay_of(old(self)@.passage),
                right_overlay: right_overlay_of(old(self)@.passage),
                ..old(self)@
            }),
    {
        let (lefts, rights) = build_overlays(&self.original_text);
        self.left_overlay = lefts;
        self.right_overlay = rights;
    }

    /// Shows the results screen.
    pub fn go_stats(&mut self)
        requires
            old(self).wf(),
        ensures
            final(self).wf(),
            final(self)@ == finish_view(old(self)@),
    {
        self.current_screen = CurrentScreen::Results;
    }

    /// Recomputes the accuracy from the passage length and the mistakes so
    /// far.
    pub fn update_accuracy(&mut self)
        requires
            old(self).wf(),
        ensures
            final(self).wf(),
            final(self)@ == accuracy_view(old(self)@),
    {
        let acc = compute_accuracy(self.original_text.len(), self.mistakes);
        self.accuracy = acc;
    }

    /// Recomputes the typing speed against the clock reading `now_ms`,
    /// remembering the elapsed time. Before the clock is armed the speed is
    /// reported as 0.
    pub fn update_wpm(&mut self, now_ms: u64)
        requires
            old(self).wf(),
        ensures
            final(self).wf(),
            final(self)@ == wpm_view(old(self)@, now_ms as int),
    {
        match self.start_time {
            None => {
                self.wpm = Some(0);
            },
            Some(st) => {
                let ms: u64 = if now_ms >= st {
                    now_ms - st
                } else {
                    0
                };
                self.elapsed_ms = Some(ms);
                let secs: u64 = ms / 1000;
                proof {
                    vstd::arithmetic::div_mod::lemma_div_is_ordered(
                        ms as int,
                        u64::MAX as int,
                        1000,
                    );
                }
                let w = compute_wpm(self.key_input.len(), self.mistakes, secs);
                self.wpm = Some(w);
            },
        }
    }

    /// A full reset, legal from any state: pristine counters and buffers, the
    /// whole passage on show again, back to `Idle`. Calling it twice is the
    /// same as calling it once.
    pub fn reset(&mut self)
        requires
            old(self).wf(),
        ensures
            final(self).wf(),
            final(self)@ == reset_view(old(self)@),
    {
        self.wrong = false;
        self.mistakes = 0;
        self.accuracy = 100;
        self.current_screen = CurrentScreen::Idle;
        self.currently_editing = None;
        self.current_text = clone_chars(&self.original_text);
        self.key_input = Vec::new();
        self.cursor = 0;
        self.wpm = Some(0);
        self.start_time = None;
        self.elapsed_ms = None;
        proof {
            lemma_reset_establishes_inv(old(self)@);
            assert(self@ =~= reset_view(old(self)@));
        }
    }

    /// Enters `Typing` from `Idle` and arms the clock with `now_ms`.
    pub fn start(&mut self, now_ms: u64)
        requires
            old(self).wf(),
            old(self).current_screen is Idle,
        ensures
            final(self).wf(),
            final(self)@ == start_view(old(self)@, now_ms as int),
    {
        self.start_time = Some(now_ms);
        self.current_screen = CurrentScreen::Typing;
    }

    /// Matches one keystroke against the expected character; see
    /// `crate::machine::keystroke_step` for the full rule.
    pub fn apply_keystroke(&mut self, c: char) -> (outcome: MatchOutcome)
        requires
            old(self).wf(),
            old(self).current_screen is Typing,
            old(self)@.typed.len() < old(self)@.passage.len(),
        ensures
            final(self).wf(),
            (final(self)@, outcome) == keystroke_step(old(self)@, c),
    {
        proof {
            lemma_keystroke_preserves_inv(old(self)@, c);
        }
        let pos = self.key_input.len();
        let expected = self.original_text[pos];
        if c == expected {
            self.key_input.push(c);
            self.cursor = self.key_input.len();
            self.wrong = false;
            let rest = suffix_chars(&self.original_text, self.cursor);
            self.current_text = rest;
            if self.key_input.len() == self.original_text.len() {
                self.current_screen = CurrentScreen::Results;
                MatchOutcome::Completed
            } else {
                MatchOutcome::Correct
            }
        } else if !self.wrong {
            self.wrong = true;
            self.mistakes = self.mistakes + 1;
            let acc = compute_accuracy(self.original_text.len(), self.mistakes);
            self.accuracy = acc;
            MatchOutcome::Incorrect
        } else {
            MatchOutcome::Incorrect
        }
    }

    /// Opens the quit-confirmation overlay, from any screen.
    pub fn request_quit(&mut self)
        requires
            old(self).wf(),
        ensures
            final(self).wf(),
            final(self)@ == quit_view(old(self)@),
    {
        self.current_screen = CurrentScreen::ConfirmExit;
    }

    /// Whether a confirmed quit is in order: true exactly on the
    /// confirmation overlay. Ending the process is the caller's business.
    pub fn confirm_quit(&self) -> (terminate: bool)
        ensures
            terminate == (self.current_screen is ConfirmExit),
    {
        match self.current_screen {
            CurrentScreen::ConfirmExit => true,
            _ => false,
        }
    }

    /// Abandons the quit request: the attempt's state is cleared by a full
    /// reset and the session returns to `Idle`.
    pub fn cancel_quit(&mut self)
        requires
            old(self).wf(),
            old(self).current_screen is ConfirmExit,
        ensures
            final(self).wf(),
            final(self)@ == reset_view(old(self)@),
    {
        self.reset();
    }

    /// Cycles the side editor's mode: closed to key, key to value, value
    /// back to key.
    pub fn toggle_editing(&mut self)
        requires
            old(self).wf(),
        ensures
            final(self).wf(),
            final(self)@ == (AppView { editing: toggled(old(self)@.editing), ..old(self)@ }),
    {
        match self.currently_editing {
            None => {
                self.currently_editing = Some(CurrentlyEditing::Key);
            },
            Some(CurrentlyEditing::Key) => {
                self.currently_editing = Some(CurrentlyEditing::Value);
            },
            Some(CurrentlyEditing::Value) => {
                self.currently_editing = Some(CurrentlyEditing::Key);
            },
        }
    }

    /// Saves the typed text and the value box as one key/value pair and
    /// closes the side editor. The typed buffer itself belongs to the
    /// session and is cleared only by a reset.
    pub fn save_key_value(&mut self)
        requires
            old(self).wf(),
        ensures
            final(self).wf(),
            final(self)@ == (AppView {
                pairs: old(self)@.pairs.push((old(self)@.typed, old(self)@.value_input)),
                value_input: Seq::empty(),
                editing: None,
                ..old(self)@
            }),
    {
        let k = clone_chars(&self.key_input);
        let v = clone_chars(&self.value_input);
        self.value_input = Vec::new();
        self.pairs.push((k, v));
        self.currently_editing = None;
        proof {
            assert(self@.pairs =~= old(self)@.pairs.push((old(self)@.typed, old(
                self,
            )@.value_input)));
        }
    }

    /// The whole keystroke dispatch; see `crate::machine::step`. Returns
    /// whether the surrounding event loop should keep going.
    pub fn handle_key(&mut self, k: Keystroke, now_ms: u64) -> (flow: Flow)
        requires
            old(self).wf(),
        ensures
            final(self).wf(),
            (final(self)@, flow) == step(old(self)@, k, now_ms as int),
    {
        match self.current_screen {
            CurrentScreen::Idle => {
                match k {
                    Keystroke::Char(c) => {
                        if c == 'i' {
                            self.start(now_ms);
                        } else if c == 'q' {
                            self.request_quit();
                        }
                    },
                    _ => {},
                }
                Flow::Continue
            },
            CurrentScreen::Typing => {
                match k {
                    Keystroke::Char(c) => {
                        if self.key_input.len() < self.original_text.len() {
                            let _outcome = self.apply_keystroke(c);
                            self.update_wpm(now_ms);
                        }
                    },
                    Keystroke::Esc => {
                        self.reset();
                    },
                    _ => {},
                }
                Flow::Continue
            },
            CurrentScreen::Results => {
                match k {
                    Keystroke::Char(c) => {
                        if c == 'i' {
                            self.reset();
                            self.start(now_ms);
                        } else if c == 'q' {
                            self.request_quit();
                        }
                    },
                    Keystroke::Esc => {
                        self.reset();
                    },
                    Keystroke::Enter => {
                        self.reset();
                    },
                    _ => {},
                }
                Flow::Continue
            },
            CurrentScreen::ConfirmExit => {
                match k {
                    Keystroke::Char(c) => {
                        if c == 'y' {
                            return Flow::Terminate;
                        } else if c == 'n' {
                            self.reset();
                        }
                    },
                    _ => {},
                }
                Flow::Continue
            },
        }
    }

    /// A read-only copy of the state a rendering collaborator needs.
    pub fn snapshot(&self) -> (s: Snapshot)
        ensures
            s.state == self.current_screen,
            s.typed@ == self@.typed,
            s.cursor == self.cursor,
            s.wrong == self.wrong,
            s.mistakes == self.mistakes,
            s.accuracy == self.accuracy,
            s.wpm == self.wpm,
            s.left_overlay@ == self@.left_overlay,
            s.right_overlay@ == self@.right_overlay,
    {
        Snapshot {
            state: self.current_screen,
            typed: clone_chars(&self.key_input),
            cursor: self.cursor,
            wrong: self.wrong,
            mistakes: self.mistakes,
            accuracy: self.accuracy,
            wpm: self.wpm,
            left_overlay: clone_chars(&self.left_overlay),
            right_overlay: clone_chars(&self.right_overlay),
        }
    }
}

} // verus!
