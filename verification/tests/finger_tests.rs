use typedrill::finger::{build_overlays, left_hint, right_hint};
use typedrill::session::App;

#[test]
fn hints_follow_the_fixed_table() {
    assert_eq!(left_hint('a'), Some('5'));
    assert_eq!(left_hint('t'), Some('2'));
    assert_eq!(left_hint(' '), Some(' '));
    assert_eq!(left_hint('o'), None);
    assert_eq!(right_hint('o'), Some('4'));
    assert_eq!(right_hint('/'), Some('5'));
    assert_eq!(right_hint(','), Some('3'));
    assert_eq!(right_hint('a'), None);
    // A character outside both tables gets no hint from either hand.
    assert_eq!(left_hint('7'), None);
    assert_eq!(right_hint('7'), None);
}

#[test]
fn overlays_align_with_the_passage() {
    let passage: Vec<char> = "dog,".chars().collect();
    let (lefts, rights) = build_overlays(&passage);
    assert_eq!(lefts, vec!['3', ' ', '2', ' ']);
    assert_eq!(rights, vec![' ', '4', ' ', '3']);
}

#[test]
fn unknown_characters_keep_their_cell_blank_on_both_sides() {
    let passage: Vec<char> = "a7o".chars().collect();
    let (lefts, rights) = build_overlays(&passage);
    assert_eq!(lefts, vec!['5', ' ', ' ']);
    assert_eq!(rights, vec![' ', ' ', '4']);
}

#[test]
fn left_hand_passage_leaves_the_right_overlay_blank() {
    let app = App::start_session("dad feet");
    assert_eq!(app.right_overlay.len(), 8);
    assert!(app.right_overlay.iter().all(|c| *c == ' '));
    assert_eq!(app.left_overlay, vec!['3', '5', '3', ' ', '2', '3', '3', '2']);
}

#[test]
fn right_hand_passage_leaves_the_left_overlay_blank() {
    let app = App::start_session("you");
    assert_eq!(app.left_overlay, vec![' ', ' ', ' ']);
    assert_eq!(app.right_overlay, vec!['2', '4', '2']);
}

#[test]
fn add_map_derives_overlays_for_the_built_in_passage() {
    let mut app = App::new();
    assert!(app.left_overlay.is_empty());
    app.add_map();
    assert_eq!(app.left_overlay.len(), app.original_text.len());
    assert_eq!(app.right_overlay.len(), app.original_text.len());
    // "one" starts the passage: o and n are right-hand keys, e a left-hand one.
    assert_eq!(app.right_overlay[0], '4');
    assert_eq!(app.left_overlay[0], ' ');
    assert_eq!(app.right_overlay[1], '2');
    assert_eq!(app.left_overlay[2], '3');
    assert_eq!(app.right_overlay[2], ' ');
}
