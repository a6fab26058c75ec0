//! The fixed smiley path.
//!
//! The face is a sequence of path commands with whole-pixel coordinates and
//! angles counted in half turns (one half turn is an angle of pi radians),
//! so the whole drawing is plain integer data. The shell that owns the
//! drawing surface replays the commands one by one, converting half turns
//! to radians at the boundary.

use vstd::prelude::*;

verus! {

/// One command of a canvas path: begin a new path, add an arc of a circle,
/// move the pen, or stroke everything accumulated so far.
///
/// `start_half_turns`/`end_half_turns` give the arc's angular span in half
/// turns, measured from the positive x axis: a span of 0 to 2 is a full
/// circle, 0 to 1 the lower half.
#[derive(Clone, Copy, Debug, PartialEq, Eq, Structural)]
pub enum Cmd {
    BeginPath,
    Arc { cx: u32, cy: u32, radius: u32, start_half_turns: u32, end_half_turns: u32 },
    MoveTo { x: u32, y: u32 },
    Stroke,
}

/// The smiley face: outline, mouth, left eye, right eye, then one stroke.
/// The geometry is hard-coded and never scales with the canvas.
pub open spec fn smiley_commands() -> Seq<Cmd> {
    seq![
        Cmd::BeginPath,
        Cmd::Arc { cx: 75, cy: 75, radius: 50, start_half_turns: 0, end_half_turns: 2 },
        Cmd::MoveTo { x: 110, y: 75 },
        Cmd::Arc { cx: 75, cy: 75, radius: 35, start_half_turns: 0, end_half_turns: 1 },
        Cmd::MoveTo { x: 65, y: 65 },
        Cmd::Arc { cx: 60, cy: 65, radius: 5, start_half_turns: 0, end_half_turns: 2 },
        Cmd::MoveTo { x: 95, y: 65 },
        Cmd::Arc { cx: 90, cy: 65, radius: 5, start_half_turns: 0, end_half_turns: 2 },
        Cmd::Stroke,
    ]
}

/// The commands to replay for one draw of the face, in order.
pub fn draw_commands() -> (v: Vec<Cmd>)
    ensures
        v@ == smiley_commands(),
{
    let mut v: Vec<Cmd> = Vec::new();
    v.push(Cmd::BeginPath);
    v.push(Cmd::Arc { cx: 75, cy: 75, radius: 50, start_half_turns: 0, end_half_turns: 2 });
    v.push(Cmd::MoveTo { x: 110, y: 75 });
    v.push(Cmd::Arc { cx: 75, cy: 75, radius: 35, start_half_turns: 0, end_half_turns: 1 });
    v.push(Cmd::MoveTo { x: 65, y: 65 });
    v.push(Cmd::Arc { cx: 60, cy: 65, radius: 5, start_half_turns: 0, end_half_turns: 2 });
    v.push(Cmd::MoveTo { x: 95, y: 65 });
    v.push(Cmd::Arc { cx: 90, cy: 65, radius: 5, start_half_turns: 0, end_half_turns: 2 });
    v.push(Cmd::Stroke);
    proof {
        assert(v@ =~= smiley_commands());
    }
    v
}

/// How many of the first `n` commands of `s` are arcs.
pub open spec fn arc_count_upto(s: Seq<Cmd>, n: int) -> int
    decreases n,
{
    if n <= 0 {
        0
    } else {
        arc_count_upto(s, n - 1) + if s[n - 1] is Arc {
            1int
        } else {
            0int
        }
    }
}

/// How many commands of `s` are arcs.
pub open spec fn arc_count(s: Seq<Cmd>) -> int {
    arc_count_upto(s, s.len() as int)
}

/// How many of the first `n` commands of `s` are strokes.
pub open spec fn stroke_count_upto(s: Seq<Cmd>, n: int) -> int
    decreases n,
{
    if n <= 0 {
        0
    } else {
        stroke_count_upto(s, n - 1) + if s[n - 1] is Stroke {
            1int
        } else {
            0int
        }
    }
}

/// How many commands of `s` are strokes.
pub open spec fn stroke_count(s: Seq<Cmd>) -> int {
    stroke_count_upto(s, s.len() as int)
}

/// A draw issues exactly four arc commands and exactly one stroke command,
/// whatever the canvas size: the geometry is size-invariant.
pub proof fn lemma_smiley_command_counts()
    ensures
        arc_count(smiley_commands()) == 4,
        stroke_count(smiley_commands()) == 1,
{
    let s = smiley_commands();
    assert(arc_count_upto(s, 0) == 0);
    assert(arc_count_upto(s, 1) == 0);
    assert(arc_count_upto(s, 2) == 1);
    assert(arc_count_upto(s, 3) == 1);
    assert(arc_count_upto(s, 4) == 2);
    assert(arc_count_upto(s, 5) == 2);
    assert(arc_count_upto(s, 6) == 3);
    assert(arc_count_upto(s, 7) == 3);
    assert(arc_count_upto(s, 8) == 4);
    assert(arc_count_upto(s, 9) == 4);
    assert(stroke_count_upto(s, 0) == 0);
    assert(stroke_count_upto(s, 1) == 0);
    assert(stroke_count_upto(s, 2) == 0);
    assert(stroke_count_upto(s, 3) == 0);
    assert(stroke_count_upto(s, 4) == 0);
    assert(stroke_count_upto(s, 5) == 0);
    assert(stroke_count_upto(s, 6) == 0);
    assert(stroke_count_upto(s, 7) == 0);
    assert(stroke_count_upto(s, 8) == 0);
    assert(stroke_count_upto(s, 9) == 1);
}

/// Drawing is idempotent: two draws with no state change in between issue
/// the identical path, since each begins by clearing the path and the
/// command list is a fixed constant.
pub proof fn lemma_draw_deterministic(first: Seq<Cmd>, second: Seq<Cmd>)
    requires
        first == smiley_commands(),
        second == smiley_commands(),
    ensures
        first == second,
{
}

} // verus!
