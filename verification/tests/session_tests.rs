use typedrill::machine::{CurrentScreen, CurrentlyEditing, Flow, Keystroke, MatchOutcome};
use typedrill::session::App;

fn typing_app(passage: &str) -> App {
    let mut app = App::start_session(passage);
    app.start(0);
    app
}

#[test]
fn new_session_is_pristine() {
    let app = App::new();
    assert_eq!(app.current_screen, CurrentScreen::Idle);
    assert_eq!(app.cursor, 0);
    assert_eq!(app.mistakes, 0);
    assert_eq!(app.accuracy, 100);
    assert!(!app.wrong);
    assert_eq!(app.wpm, None);
    assert_eq!(app.start_time, None);
    assert!(app.key_input.is_empty());
    let expected: Vec<char> = "one time leave part out who take all same ask should"
        .chars()
        .collect();
    assert_eq!(app.original_text, expected);
    assert_eq!(app.current_text, expected);
}

#[test]
fn matching_keystrokes_advance_the_cursor() {
    let mut app = typing_app("cab");
    assert_eq!(app.apply_keystroke('c'), MatchOutcome::Correct);
    assert_eq!(app.cursor, 1);
    assert_eq!(app.key_input, vec!['c']);
    assert_eq!(app.current_text, vec!['a', 'b']);
    assert_eq!(app.apply_keystroke('a'), MatchOutcome::Correct);
    assert_eq!(app.cursor, 2);
    assert_eq!(app.mistakes, 0);
}

#[test]
fn mismatch_counts_once_and_correction_clears_the_flag() {
    // Passage "cab", keystrokes c, a, x, x, b: the mismatch is counted one
    // single time however long the wrong key is held, and only the right key
    // for the same position clears the flag and advances.
    let mut app = typing_app("cab");
    assert_eq!(app.apply_keystroke('c'), MatchOutcome::Correct);
    assert_eq!(app.apply_keystroke('a'), MatchOutcome::Correct);
    assert_eq!(app.apply_keystroke('x'), MatchOutcome::Incorrect);
    assert_eq!(app.mistakes, 1);
    assert!(app.wrong);
    assert_eq!(app.accuracy, 67);
    assert_eq!(app.apply_keystroke('x'), MatchOutcome::Incorrect);
    assert_eq!(app.mistakes, 1);
    assert!(app.wrong);
    assert_eq!(app.cursor, 2);
    assert_eq!(app.apply_keystroke('b'), MatchOutcome::Completed);
    assert_eq!(app.mistakes, 1);
    assert!(!app.wrong);
    assert_eq!(app.current_screen, CurrentScreen::Results);
}

#[test]
fn flawless_attempt_scores_100_and_reaches_results() {
    let passage = "all same ask";
    let mut app = typing_app(passage);
    let chars: Vec<char> = passage.chars().collect();
    for (i, c) in chars.iter().enumerate() {
        let outcome = app.apply_keystroke(*c);
        if i + 1 == chars.len() {
            assert_eq!(outcome, MatchOutcome::Completed);
        } else {
            assert_eq!(outcome, MatchOutcome::Correct);
        }
    }
    assert_eq!(app.accuracy, 100);
    assert_eq!(app.mistakes, 0);
    assert_eq!(app.current_screen, CurrentScreen::Results);
    assert_eq!(app.key_input, chars);
    assert!(app.current_text.is_empty());
}

#[test]
fn reset_restores_the_pristine_state() {
    let mut app = typing_app("cab");
    app.apply_keystroke('c');
    app.apply_keystroke('x');
    app.update_wpm(4000);
    app.reset();
    assert_eq!(app.current_screen, CurrentScreen::Idle);
    assert!(app.key_input.is_empty());
    assert_eq!(app.cursor, 0);
    assert_eq!(app.mistakes, 0);
    assert_eq!(app.accuracy, 100);
    assert!(!app.wrong);
    assert_eq!(app.wpm, Some(0));
    assert_eq!(app.start_time, None);
    assert_eq!(app.elapsed_ms, None);
    assert_eq!(app.current_text, app.original_text);
}

#[test]
fn reset_twice_is_the_same_as_once() {
    let mut app = typing_app("cab");
    app.apply_keystroke('c');
    app.apply_keystroke('x');
    app.update_wpm(2500);
    app.reset();
    let once = app.snapshot();
    app.reset();
    let twice = app.snapshot();
    assert_eq!(once.state, twice.state);
    assert_eq!(once.typed, twice.typed);
    assert_eq!(once.cursor, twice.cursor);
    assert_eq!(once.wrong, twice.wrong);
    assert_eq!(once.mistakes, twice.mistakes);
    assert_eq!(once.accuracy, twice.accuracy);
    assert_eq!(once.wpm, twice.wpm);
    assert_eq!(once.left_overlay, twice.left_overlay);
    assert_eq!(once.right_overlay, twice.right_overlay);
}

#[test]
fn thirty_characters_in_a_minute_is_six_wpm() {
    let passage = "all same ask should out who ta";
    let mut app = typing_app(passage);
    assert_eq!(passage.len(), 30);
    for c in passage.chars() {
        app.apply_keystroke(c);
    }
    assert_eq!(app.mistakes, 0);
    app.update_wpm(60_000);
    assert_eq!(app.wpm, Some(6));
    assert_eq!(app.elapsed_ms, Some(60_000));
}

#[test]
fn wpm_is_zero_before_the_clock_is_armed() {
    let mut app = App::start_session("cab");
    app.update_wpm(90_000);
    assert_eq!(app.wpm, Some(0));
    assert_eq!(app.start_time, None);
}

#[test]
fn quit_flow_from_typing_can_be_cancelled() {
    let mut app = typing_app("cab");
    app.apply_keystroke('c');
    app.apply_keystroke('x');
    app.request_quit();
    assert_eq!(app.current_screen, CurrentScreen::ConfirmExit);
    assert!(app.confirm_quit());
    app.cancel_quit();
    assert_eq!(app.current_screen, CurrentScreen::Idle);
    assert!(app.key_input.is_empty());
    assert_eq!(app.mistakes, 0);
    assert!(!app.confirm_quit());
}

#[test]
fn handle_key_drives_a_whole_session() {
    let mut app = App::start_session("ha");
    assert_eq!(app.handle_key(Keystroke::Char('i'), 1000), Flow::Continue);
    assert_eq!(app.current_screen, CurrentScreen::Typing);
    assert_eq!(app.start_time, Some(1000));
    assert_eq!(app.handle_key(Keystroke::Char('h'), 2000), Flow::Continue);
    assert_eq!(app.cursor, 1);
    // One character net of no mistakes in one second: round(60*1/5) = 12.
    assert_eq!(app.wpm, Some(12));
    assert_eq!(app.handle_key(Keystroke::Char('a'), 61_000), Flow::Continue);
    assert_eq!(app.current_screen, CurrentScreen::Results);
    // Two characters net of no mistakes in a minute: round(60*2/(5*60)) = 0.
    assert_eq!(app.wpm, Some(0));
    assert_eq!(app.handle_key(Keystroke::Enter, 61_500), Flow::Continue);
    assert_eq!(app.current_screen, CurrentScreen::Idle);
    assert_eq!(app.handle_key(Keystroke::Char('q'), 62_000), Flow::Continue);
    assert_eq!(app.current_screen, CurrentScreen::ConfirmExit);
    assert_eq!(app.handle_key(Keystroke::Char('n'), 63_000), Flow::Continue);
    assert_eq!(app.current_screen, CurrentScreen::Idle);
    assert_eq!(app.handle_key(Keystroke::Char('q'), 64_000), Flow::Continue);
    assert_eq!(app.handle_key(Keystroke::Char('y'), 65_000), Flow::Terminate);
}

#[test]
fn restarting_from_results_resets_first() {
    let mut app = typing_app("ab");
    app.apply_keystroke('x');
    app.apply_keystroke('a');
    app.apply_keystroke('b');
    assert_eq!(app.current_screen, CurrentScreen::Results);
    assert_eq!(app.mistakes, 1);
    assert_eq!(app.handle_key(Keystroke::Char('i'), 9000), Flow::Continue);
    assert_eq!(app.current_screen, CurrentScreen::Typing);
    assert!(app.key_input.is_empty());
    assert_eq!(app.mistakes, 0);
    assert_eq!(app.start_time, Some(9000));
}

#[test]
fn escape_abandons_an_attempt() {
    let mut app = typing_app("cab");
    app.apply_keystroke('c');
    assert_eq!(app.handle_key(Keystroke::Esc, 500), Flow::Continue);
    assert_eq!(app.current_screen, CurrentScreen::Idle);
    assert!(app.key_input.is_empty());
    assert_eq!(app.current_text, app.original_text);
}

#[test]
fn edit_text_replaces_the_displayed_text() {
    let mut app = App::new();
    app.edit_text("abc");
    assert_eq!(app.current_text, vec!['a', 'b', 'c']);
}

#[test]
fn go_stats_shows_the_results_screen() {
    let mut app = App::new();
    app.go_stats();
    assert_eq!(app.current_screen, CurrentScreen::Results);
}

#[test]
fn update_accuracy_recomputes_from_the_counters() {
    let mut app = typing_app("cab");
    app.apply_keystroke('x');
    assert_eq!(app.mistakes, 1);
    app.accuracy = 5;
    app.update_accuracy();
    assert_eq!(app.accuracy, 67);
}

#[test]
fn toggle_editing_cycles_the_editor_mode() {
    let mut app = App::new();
    assert_eq!(app.currently_editing, None);
    app.toggle_editing();
    assert_eq!(app.currently_editing, Some(CurrentlyEditing::Key));
    app.toggle_editing();
    assert_eq!(app.currently_editing, Some(CurrentlyEditing::Value));
    app.toggle_editing();
    assert_eq!(app.currently_editing, Some(CurrentlyEditing::Key));
}

#[test]
fn save_key_value_stores_the_pair_and_closes_the_editor() {
    let mut app = typing_app("cab");
    app.apply_keystroke('c');
    app.value_input = vec!['v'];
    app.toggle_editing();
    app.save_key_value();
    assert_eq!(app.pairs.len(), 1);
    assert_eq!(app.pairs[0].0, vec!['c']);
    assert_eq!(app.pairs[0].1, vec!['v']);
    assert!(app.value_input.is_empty());
    assert_eq!(app.currently_editing, None);
    // The typed buffer belongs to the session and survives the save.
    assert_eq!(app.key_input, vec!['c']);
}
