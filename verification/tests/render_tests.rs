use pong::render::{render_frame, score_text, Color, DrawCmd};
use pong::sim::tick;
use pong::GameState;

fn chars(s: &str) -> Vec<char> {
    s.chars().collect()
}

#[test]
fn score_text_at_zero() {
    assert_eq!(score_text(0, 0), chars("0 - 0"));
}

#[test]
fn score_text_single_digits() {
    assert_eq!(score_text(7, 3), chars("7 - 3"));
}

#[test]
fn score_text_multi_digit() {
    assert_eq!(score_text(10, 255), chars("10 - 255"));
    assert_eq!(score_text(1000000, 42), chars("1000000 - 42"));
    assert_eq!(score_text(u32::MAX, 0), chars("4294967295 - 0"));
}

#[test]
fn render_clears_before_drawing() {
    let s = GameState::new();
    let cmds = render_frame(&s);
    assert_eq!(cmds[0], DrawCmd::Clear);
}

#[test]
fn render_twice_produces_identical_redraws() {
    let s = GameState::new();
    let first = render_frame(&s);
    let second = render_frame(&s);
    assert_eq!(first, second);
}

#[test]
fn render_does_not_mutate_the_state() {
    let s = GameState::new();
    let before = s;
    let _ = render_frame(&s);
    assert_eq!(s, before);
}

#[test]
fn render_layout_of_the_initial_state() {
    let s = GameState::new();
    let cmds = render_frame(&s);
    // Clear and score line, five consecutive cells of the left paddle,
    // five consecutive cells of the right paddle, the ball.
    assert_eq!(cmds.len(), 5 + 5 * 4 + 5 * 4 + 4);
    assert_eq!(cmds[1], DrawCmd::MoveTo(35, 1));
    assert_eq!(cmds[2], DrawCmd::SetFg(Color::Green));
    assert_eq!(cmds[3], DrawCmd::Text(chars("0 - 0")));
    assert_eq!(cmds[4], DrawCmd::ResetColor);
    // The whole left paddle comes first, top to bottom, one single-cell
    // write per row, filled by background color.
    for i in 0..5u16 {
        let at = 5 + 4 * i as usize;
        assert_eq!(cmds[at], DrawCmd::MoveTo(4, 10 + i));
        assert_eq!(cmds[at + 1], DrawCmd::SetBg(Color::White));
        assert_eq!(cmds[at + 2], DrawCmd::Text(chars(" ")));
        assert_eq!(cmds[at + 3], DrawCmd::ResetColor);
    }
    // Then the whole right paddle, top to bottom.
    for i in 0..5u16 {
        let at = 25 + 4 * i as usize;
        assert_eq!(cmds[at], DrawCmd::MoveTo(75, 10 + i));
        assert_eq!(cmds[at + 1], DrawCmd::SetBg(Color::White));
        assert_eq!(cmds[at + 2], DrawCmd::Text(chars(" ")));
        assert_eq!(cmds[at + 3], DrawCmd::ResetColor);
    }
    // The ball comes last, in its own color.
    assert_eq!(cmds[45], DrawCmd::MoveTo(40, 12));
    assert_eq!(cmds[46], DrawCmd::SetFg(Color::Yellow));
    assert_eq!(cmds[47], DrawCmd::Text(chars("\u{25A0}")));
    assert_eq!(cmds[48], DrawCmd::ResetColor);
}

#[test]
fn render_follows_the_state() {
    let mut s = GameState::new();
    tick(&mut s, None);
    let cmds = render_frame(&s);
    assert_eq!(cmds[45], DrawCmd::MoveTo(41, 13));
    let before = render_frame(&GameState::new());
    assert_ne!(cmds, before);
}
