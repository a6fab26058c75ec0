//! A small library behind a canvas page that draws a fixed smiley face and
//! keeps the canvas sized to the page body.
//!
//! The host page's work is split in two: this crate computes, as plain
//! values, everything the page decides (which path commands to issue, and
//! which size attributes to set on each resize), and a thin shell around it
//! performs the browser calls.

use vstd::prelude::*;

mod path;
mod sizing;

pub use path::Cmd;
pub use path::arc_count;
pub use path::draw_commands;
pub use path::lemma_draw_deterministic;
pub use path::lemma_smiley_command_counts;
pub use path::smiley_commands;
pub use path::stroke_count;
pub use sizing::CanvasAttrs;
pub use sizing::apply_resize;
pub use sizing::decimal_of;
pub use sizing::decimal_of_nat;
pub use sizing::decimal_string;
pub use sizing::decimal_string_u32;
pub use sizing::digit_char;
pub use sizing::matches_client;
pub use sizing::sized_to;

verus! {

/// Everything one load or resize step does to the page, as plain data: the
/// size attributes to write onto the canvas element, and the path commands
/// to replay on its drawing surface.
pub struct RedrawAction {
    pub attrs: sizing::CanvasAttrs,
    pub commands: Vec<path::Cmd>,
}

/// The decision taken at load and again on every resize event: re-read the
/// body's client size, size the canvas to it, and redraw the fixed smiley.
/// The commands never depend on the client size: the face does not rescale
/// or recenter with the canvas.
pub fn handle_view_change(client_width: i32, client_height: i32) -> (act: RedrawAction)
    ensures
        sizing::matches_client(act.attrs, client_width as int, client_height as int),
        act.commands@ == path::smiley_commands(),
{
    RedrawAction {
        attrs: sizing::sized_to(client_width, client_height),
        commands: path::draw_commands(),
    }
}

} // verus!
