//! The renderer: a game state snapshot becomes a list of drawing
//! commands — clear the display, print the score line, draw both paddles
//! top to bottom, draw the ball. The embedding program executes the
//! commands on a real terminal; here their meaning is pinned by a screen
//! model, over which the redraw laws are proved.

use vstd::prelude::*;
use crate::game::BallModel;
use crate::game::GameModel;
use crate::game::GameState;
use crate::game::PaddleModel;
use crate::game::paddle_wf;

verus! {

/// The colors the game draws with. Color is cosmetic only: it carries no
/// game state, so the screen-content model below ignores it.
#[derive(Clone, Copy, Debug, PartialEq, Eq, Structural)]
pub enum Color {
    Green,
    White,
    Yellow,
}

/// One drawing command for the terminal.
#[derive(Clone, Debug, PartialEq, Eq)]
pub enum DrawCmd {
    /// Clear the whole display.
    Clear,
    /// Move the output position to (column, row).
    MoveTo(u16, u16),
    /// Set the foreground color.
    SetFg(Color),
    /// Set the background color.
    SetBg(Color),
    /// Reset colors to the terminal's defaults.
    ResetColor,
    /// Write a text run at the output position.
    Text(Vec<char>),
}

/// Mathematical image of one drawing command.
pub enum CmdV {
    Clear,
    MoveTo { x: int, y: int },
    SetFg { color: Color },
    SetBg { color: Color },
    ResetColor,
    Text { t: Seq<char> },
}

impl View for DrawCmd {
    type V = CmdV;

    open spec fn view(&self) -> CmdV {
        match self {
            DrawCmd::Clear => CmdV::Clear,
            DrawCmd::MoveTo(x, y) => CmdV::MoveTo { x: *x as int, y: *y as int },
            DrawCmd::SetFg(c) => CmdV::SetFg { color: *c },
            DrawCmd::SetBg(c) => CmdV::SetBg { color: *c },
            DrawCmd::ResetColor => CmdV::ResetColor,
            DrawCmd::Text(t) => CmdV::Text { t: t@ },
        }
    }
}

/// The real command list and the modelled one agree element by element.
pub open spec fn views_match(cmds: Seq<DrawCmd>, model: Seq<CmdV>) -> bool {
    &&& cmds.len() == model.len()
    &&& forall|j: int| 0 <= j < cmds.len() ==> cmds[j]@ == model[j]
}

/// The character for one decimal digit.
pub open spec fn digit_char(d: int) -> char {
    if d == 0 {
        '0'
    } else if d == 1 {
        '1'
    } else if d == 2 {
        '2'
    } else if d == 3 {
        '3'
    } else if d == 4 {
        '4'
    } else if d == 5 {
        '5'
    } else if d == 6 {
        '6'
    } else if d == 7 {
        '7'
    } else if d == 8 {
        '8'
    } else {
        '9'
    }
}

/// The decimal digits of a number, most significant first, with no
/// leading zeros (a lone zero for zero itself).
pub open spec fn dec_digits(n: int) -> Seq<char>
    decreases n,
{
    if n < 10 {
        seq![digit_char(n)]
    } else {
        dec_digits(n / 10).push(digit_char(n % 10))
    }
}

/// The score line: left score, a separating dash, right score.
pub open spec fn score_text_model(left: int, right: int) -> Seq<char> {
    dec_digits(left) + seq![' ', '-', ' '] + dec_digits(right)
}

fn digit_to_char(d: u32) -> (c: char)
    requires
        d < 10,
    ensures
        c == digit_char(d as int),
{
    match d {
        0 => '0',
        1 => '1',
        2 => '2',
        3 => '3',
        4 => '4',
        5 => '5',
        6 => '6',
        7 => '7',
        8 => '8',
        _ => '9',
    }
}

fn digits(n: u32) -> (t: Vec<char>)
    ensures
        t@ == dec_digits(n as int),
    decreases n,
{
    if n < 10 {
        let mut t: Vec<char> = Vec::new();
        t.push(digit_to_char(n));
        assert(t@ =~= seq![digit_char(n as int)]);
        t
    } else {
        let mut t = digits(n / 10);
        t.push(digit_to_char(n % 10));
        assert(t@ =~= dec_digits(n as int / 10).push(digit_char(n as int % 10)));
        t
    }
}

/// The text of the score line for the given counters.
pub fn score_text(left: u32, right: u32) -> (t: Vec<char>)
    ensures
        t@ == score_text_model(left as int, right as int),
{
    let mut t = digits(left);
    t.push(' ');
    t.push('-');
    t.push(' ');
    let mut tail = digits(right);
    t.append(&mut tail);
    assert(t@ =~= score_text_model(left as int, right as int));
    t
}

/// The two commands every redraw starts with: clear the display, then
/// move to the score position. After them the screen content and the
/// output position no longer depend on anything drawn before.
pub open spec fn clear_and_home() -> Seq<CmdV> {
    seq![CmdV::Clear, CmdV::MoveTo { x: 35, y: 1 }]
}

/// The score line commands.
pub open spec fn score_cmds(m: GameModel) -> Seq<CmdV> {
    seq![
        CmdV::SetFg { color: Color::Green },
        CmdV::Text { t: score_text_model(m.left_score, m.right_score) },
        CmdV::ResetColor,
    ]
}

/// One filled cell of a paddle, `i` rows below its top edge.
pub open spec fn cell_cmds(p: PaddleModel, i: int) -> Seq<CmdV> {
    seq![
        CmdV::MoveTo { x: p.x, y: p.y + i },
        CmdV::SetBg { color: Color::White },
        CmdV::Text { t: seq![' '] },
        CmdV::ResetColor,
    ]
}

/// The first `n` cells of one paddle, as consecutive single-cell writes
/// top to bottom.
pub open spec fn paddle_cmds(p: PaddleModel, n: int) -> Seq<CmdV>
    decreases n,
{
    if n <= 0 {
        Seq::empty()
    } else {
        paddle_cmds(p, n - 1) + cell_cmds(p, n - 1)
    }
}

/// The ball glyph commands.
pub open spec fn ball_cmds(b: BallModel) -> Seq<CmdV> {
    seq![
        CmdV::MoveTo { x: b.x, y: b.y },
        CmdV::SetFg { color: Color::Yellow },
        CmdV::Text { t: seq!['\u{25A0}'] },
        CmdV::ResetColor,
    ]
}

/// One full redraw of a state: clear, score line, the whole left paddle
/// top to bottom, the whole right paddle top to bottom, then the ball.
pub open spec fn render_model(m: GameModel) -> Seq<CmdV> {
    clear_and_home() + score_cmds(m) + paddle_cmds(m.left, m.left.height) + paddle_cmds(
        m.right,
        m.right.height,
    ) + ball_cmds(m.ball)
}

/// Produce the full redraw command list for a state snapshot. The state
/// is only read, never changed.
pub fn render_frame(state: &GameState) -> (cmds: Vec<DrawCmd>)
    requires
        state.wf(),
    ensures
        views_match(cmds@, render_model(state@)),
{
    let ghost m = state@;
    let mut v: Vec<DrawCmd> = Vec::new();
    v.push(DrawCmd::Clear);
    v.push(DrawCmd::MoveTo(35, 1));
    v.push(DrawCmd::SetFg(Color::Green));
    v.push(DrawCmd::Text(score_text(state.left_score, state.right_score)));
    v.push(DrawCmd::ResetColor);
    assert(views_match(v@, clear_and_home() + score_cmds(m)));

    let lp = state.left_paddle;
    let rp = state.right_paddle;
    let mut i: u16 = 0;
    while i < lp.height
        invariant
            i <= lp.height,
            paddle_wf(lp@, 4),
            views_match(v@, clear_and_home() + score_cmds(m) + paddle_cmds(lp@, i as int)),
        decreases lp.height - i,
    {
        let ghost v0 = v@;
        v.push(DrawCmd::MoveTo(lp.x, lp.y + i));
        v.push(DrawCmd::SetBg(Color::White));
        v.push(DrawCmd::Text(space_text()));
        v.push(DrawCmd::ResetColor);
        proof {
            let pre = clear_and_home() + score_cmds(m);
            let pc = paddle_cmds(lp@, i as int);
            let cc = cell_cmds(lp@, i as int);
            let target = pre + paddle_cmds(lp@, i as int + 1);
            assert(paddle_cmds(lp@, i as int + 1) == pc + cc);
            assert(v@.len() == target.len());
            assert forall|j: int| 0 <= j < v@.len() implies v@[j]@ == target[j] by {
                if j < v0.len() {
                    assert(v@[j] == v0[j]);
                    assert(target[j] == (pre + pc)[j]);
                } else {
                    let k = j - v0.len();
                    assert(target[j] == cc[k]);
                }
            }
            assert(views_match(v@, target));
        }
        i = i + 1;
    }
    assert(lp@ == m.left && rp@ == m.right);

    let mut i: u16 = 0;
    while i < rp.height
        invariant
            i <= rp.height,
            paddle_wf(lp@, 4),
            paddle_wf(rp@, 75),
            views_match(
                v@,
                clear_and_home() + score_cmds(m) + paddle_cmds(lp@, lp@.height) + paddle_cmds(
                    rp@,
                    i as int,
                ),
            ),
        decreases rp.height - i,
    {
        let ghost v0 = v@;
        v.push(DrawCmd::MoveTo(rp.x, rp.y + i));
        v.push(DrawCmd::SetBg(Color::White));
        v.push(DrawCmd::Text(space_text()));
        v.push(DrawCmd::ResetColor);
        proof {
            let pre = clear_and_home() + score_cmds(m) + paddle_cmds(lp@, lp@.height);
            let pc = paddle_cmds(rp@, i as int);
            let cc = cell_cmds(rp@, i as int);
            let target = pre + paddle_cmds(rp@, i as int + 1);
            assert(paddle_cmds(rp@, i as int + 1) == pc + cc);
            assert(v@.len() == target.len());
            assert forall|j: int| 0 <= j < v@.len() implies v@[j]@ == target[j] by {
                if j < v0.len() {
                    assert(v@[j] == v0[j]);
                    assert(target[j] == (pre + pc)[j]);
                } else {
                    let k = j - v0.len();
                    assert(target[j] == cc[k]);
                }
            }
            assert(views_match(v@, target));
        }
        i = i + 1;
    }

    v.push(DrawCmd::MoveTo(state.ball.x, state.ball.y));
    v.push(DrawCmd::SetFg(Color::Yellow));
    v.push(DrawCmd::Text(ball_text()));
    v.push(DrawCmd::ResetColor);
    assert(views_match(v@, render_model(m)));
    v
}

/// The visible content of the terminal: which character each cell shows,
/// and where the next text run would start. Cells absent from the map are
/// blank. Colors are cosmetic and carry no content, so the model ignores
/// the color commands.
#[verifier::ext_equal]
pub struct Screen {
    pub cells: Map<(int, int), char>,
    pub col: int,
    pub row: int,
}

/// A text run written cell by cell from the output position, which
/// advances one column per character.
pub open spec fn write_text(s: Screen, t: Seq<char>) -> Screen
    decreases t.len(),
{
    if t.len() == 0 {
        s
    } else {
        write_text(
            Screen { cells: s.cells.insert((s.col, s.row), t[0]), col: s.col + 1, ..s },
            t.subrange(1, t.len() as int),
        )
    }
}

/// The effect of one drawing command on the screen.
pub open spec fn apply_cmd(s: Screen, c: CmdV) -> Screen {
    match c {
        CmdV::Clear => Screen { cells: Map::empty(), ..s },
        CmdV::MoveTo { x, y } => Screen { col: x, row: y, ..s },
        CmdV::SetFg { .. } => s,
        CmdV::SetBg { .. } => s,
        CmdV::ResetColor => s,
        CmdV::Text { t } => write_text(s, t),
    }
}

/// The effect of a command list, first to last.
pub open spec fn apply_cmds(s: Screen, cs: Seq<CmdV>) -> Screen
    decreases cs.len(),
{
    if cs.len() == 0 {
        s
    } else {
        apply_cmds(apply_cmd(s, cs[0]), cs.subrange(1, cs.len() as int))
    }
}

/// Applying a concatenation is applying the first part, then the second.
pub proof fn lemma_apply_cmds_append(s: Screen, a: Seq<CmdV>, b: Seq<CmdV>)
    ensures
        apply_cmds(s, a + b) == apply_cmds(apply_cmds(s, a), b),
    decreases a.len(),
{
    if a.len() == 0 {
        assert(a + b =~= b);
    } else {
        assert((a + b)[0] == a[0]);
        assert((a + b).subrange(1, (a + b).len() as int) =~= a.subrange(1, a.len() as int) + b);
        lemma_apply_cmds_append(apply_cmd(s, a[0]), a.subrange(1, a.len() as int), b);
    }
}

proof fn lemma_apply_two(s: Screen, c1: CmdV, c2: CmdV)
    ensures
        apply_cmds(s, seq![c1, c2]) == apply_cmd(apply_cmd(s, c1), c2),
{
    let cs = seq![c1, c2];
    assert(cs.subrange(1, 2) =~= seq![c2]);
    assert(seq![c2].subrange(1, 1) =~= Seq::<CmdV>::empty());
    assert(apply_cmds(apply_cmd(apply_cmd(s, c1), c2), Seq::<CmdV>::empty()) == apply_cmd(
        apply_cmd(s, c1),
        c2,
    ));
    assert(apply_cmds(apply_cmd(s, c1), seq![c2]) == apply_cmd(apply_cmd(s, c1), c2));
}

/// A full redraw paints the same screen whatever was visible before:
/// it clears first and then positions every text run absolutely, so no
/// earlier drawing can leave an artifact.
pub proof fn lemma_render_covers(m: GameModel, s1: Screen, s2: Screen)
    ensures
        apply_cmds(s1, render_model(m)) == apply_cmds(s2, render_model(m)),
{
    let tail = score_cmds(m) + paddle_cmds(m.left, m.left.height) + paddle_cmds(
        m.right,
        m.right.height,
    ) + ball_cmds(m.ball);
    assert(render_model(m) =~= clear_and_home() + tail);
    lemma_apply_cmds_append(s1, clear_and_home(), tail);
    lemma_apply_cmds_append(s2, clear_and_home(), tail);
    lemma_apply_two(s1, CmdV::Clear, CmdV::MoveTo { x: 35, y: 1 });
    lemma_apply_two(s2, CmdV::Clear, CmdV::MoveTo { x: 35, y: 1 });
    assert(apply_cmds(s1, clear_and_home()) =~= apply_cmds(s2, clear_and_home()));
}

/// Rendering the same state twice in succession leaves exactly the
/// screen a single redraw leaves: a second redraw changes nothing.
pub proof fn lemma_render_idempotent(m: GameModel, s: Screen)
    ensures
        apply_cmds(apply_cmds(s, render_model(m)), render_model(m)) == apply_cmds(
            s,
            render_model(m),
        ),
{
    lemma_render_covers(m, apply_cmds(s, render_model(m)), s);
}

fn space_text() -> (t: Vec<char>)
    ensures
        t@ == seq![' '],
{
    let mut t: Vec<char> = Vec::new();
    t.push(' ');
    assert(t@ =~= seq![' ']);
    t
}

fn ball_text() -> (t: Vec<char>)
    ensures
        t@ == seq!['\u{25A0}'],
{
    let mut t: Vec<char> = Vec::new();
    t.push('\u{25A0}');
    assert(t@ =~= seq!['\u{25A0}']);
    t
}

} // verus!
