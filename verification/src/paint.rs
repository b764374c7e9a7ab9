//! The paint handler: what one frame consists of.
//!
//! A frame is a fixed command sequence — begin, reset the transform, clear
//! to white, draw the stored text centered in the DPI-scaled layout
//! rectangle with the black brush, end — computed here as plain values and
//! issued against the platform's render target by the shell.

use crate::geometry::{layout_rect, spec_layout_rect, Rect};
use crate::state::SimpleText;
use vstd::prelude::*;

verus! {

/// A solid color, each channel on the renderer's 0..=255 scale, opaque.
#[derive(Clone, Copy, PartialEq, Eq, Structural, Debug)]
pub struct Color {
    pub red: u8,
    pub green: u8,
    pub blue: u8,
}

impl Color {
    /// A solid color from its three channels.
    pub fn solid_color(red: u8, green: u8, blue: u8) -> (c: Color)
        ensures
            c == (Color { red, green, blue }),
    {
        Color { red, green, blue }
    }

    /// The brush color: black.
    pub fn black() -> (c: Color)
        ensures
            c == (Color { red: 0, green: 0, blue: 0 }),
    {
        Color { red: 0, green: 0, blue: 0 }
    }

    /// The background color: white.
    pub fn white() -> (c: Color)
        ensures
            c == (Color { red: 255, green: 255, blue: 255 }),
    {
        Color { red: 255, green: 255, blue: 255 }
    }
}

/// One drawing command of a frame, in the vocabulary of the platform's
/// render target. The text, its format and the brush are the ones held by
/// the window state; the commands carry what varies per frame.
#[derive(Clone, Copy, PartialEq, Eq, Structural, Debug)]
pub enum DrawCommand {
    /// Begin the frame.
    BeginDraw,
    /// Reset the target's transform to the identity.
    SetIdentityTransform,
    /// Clear the whole surface to the given color.
    Clear { color: Color },
    /// Draw the stored text with the stored format and brush, centered in
    /// the given device-independent layout rectangle.
    DrawText { layout: Rect, brush: Color },
    /// End the frame; its result code decides the paint outcome.
    EndDraw,
}

/// The command sequence of one frame for client rectangle `client` under
/// DPI divisors `sx`, `sy`.
pub open spec fn spec_frame(client: Rect, sx: i32, sy: i32) -> Seq<DrawCommand> {
    seq![
        DrawCommand::BeginDraw,
        DrawCommand::SetIdentityTransform,
        DrawCommand::Clear { color: Color { red: 255, green: 255, blue: 255 } },
        DrawCommand::DrawText {
            layout: spec_layout_rect(client, sx, sy),
            brush: Color { red: 0, green: 0, blue: 0 },
        },
        DrawCommand::EndDraw,
    ]
}

impl SimpleText {
    /// `Paint`, the computation half: the commands of one frame, in issue
    /// order — begin, identity transform, clear to white, the text centered
    /// in the layout rectangle (the client rectangle under the integer DPI
    /// divisors), end. The caller issues them in this order against the
    /// render target and hands the end-of-frame result to `finish_paint`.
    pub fn frame_commands(&self, client: &Rect, sx: i32, sy: i32) -> (cmds: Vec<DrawCommand>)
        requires
            self@.inv(),
            self@.can_paint(),
            client.is_client(),
            1 <= sx,
            1 <= sy,
        ensures
            cmds@ == spec_frame(*client, sx, sy),
    {
        let layout = layout_rect(client, sx, sy);
        let mut cmds: Vec<DrawCommand> = Vec::new();
        cmds.push(DrawCommand::BeginDraw);
        cmds.push(DrawCommand::SetIdentityTransform);
        cmds.push(DrawCommand::Clear { color: Color::white() });
        cmds.push(DrawCommand::DrawText { layout, brush: Color::black() });
        cmds.push(DrawCommand::EndDraw);
        proof {
            assert(cmds@ =~= spec_frame(*client, sx, sy));
        }
        cmds
    }
}

} // verus!
