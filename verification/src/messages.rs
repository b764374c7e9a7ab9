//! Classification of what the window system delivers: message codes into the
//! events this renderer handles, packed size parameters into widths and
//! heights, and end-of-frame result codes into paint outcomes.

use vstd::prelude::*;

verus! {

/// Window-system message code: a window must be repainted.
pub const WM_PAINT: u32 = 15;

/// Window-system message code: a window's client area changed size.
pub const WM_SIZE: u32 = 5;

/// Window-system message code: a window is being destroyed.
pub const WM_DESTROY: u32 = 2;

/// Result code for a frame that completed normally.
pub const HR_OK: u32 = 0;

/// Result code with which the platform signals that the render target was
/// invalidated (for instance by device loss) and must be rebuilt before
/// further drawing.
pub const HR_RECREATE_TARGET: u32 = 0x8899_000C;

/// The events the window procedure distinguishes; everything else is
/// forwarded to the platform's default handling.
#[derive(Clone, Copy, PartialEq, Eq, Structural, Debug)]
pub enum WindowEvent {
    Paint,
    Resize,
    Destroy,
    Other,
}

/// The outcome of one painted frame, read off the end-of-frame result code.
#[derive(Clone, Copy, PartialEq, Eq, Structural, Debug)]
pub enum PaintOutcome {
    Completed,
    TargetLost,
    Failed { code: u32 },
}

/// Maps a message code to the event it stands for. Unknown codes map to
/// `Other`, which the caller must hand to the platform's default handling,
/// never drop.
pub fn classify_message(message: u32) -> (e: WindowEvent)
    ensures
        e == (if message == WM_PAINT {
            WindowEvent::Paint
        } else if message == WM_SIZE {
            WindowEvent::Resize
        } else if message == WM_DESTROY {
            WindowEvent::Destroy
        } else {
            WindowEvent::Other
        }),
{
    if message == WM_PAINT {
        WindowEvent::Paint
    } else if message == WM_SIZE {
        WindowEvent::Resize
    } else if message == WM_DESTROY {
        WindowEvent::Destroy
    } else {
        WindowEvent::Other
    }
}

/// Unpacks the size message's parameter: the new client width in the low 16
/// bits, the new height in the next 16.
pub fn size_from_lparam(lparam: u64) -> (s: (u32, u32))
    ensures
        s.0 == lparam & 0xFFFF,
        s.1 == (lparam >> 16) & 0xFFFF,
{
    let w64: u64 = lparam & 0xFFFF;
    let h64: u64 = (lparam >> 16) & 0xFFFF;
    assert(w64 < 0x10000 && h64 < 0x10000) by (bit_vector)
        requires
            w64 == lparam & 0xFFFF && h64 == (lparam >> 16) & 0xFFFF,
    ;
    (w64 as u32, h64 as u32)
}

/// Reads the outcome of a frame off the end-of-frame result code.
pub fn classify_end_draw(code: u32) -> (o: PaintOutcome)
    ensures
        o == (if code == HR_OK {
            PaintOutcome::Completed
        } else if code == HR_RECREATE_TARGET {
            PaintOutcome::TargetLost
        } else {
            PaintOutcome::Failed { code }
        }),
{
    if code == HR_OK {
        PaintOutcome::Completed
    } else if code == HR_RECREATE_TARGET {
        PaintOutcome::TargetLost
    } else {
        PaintOutcome::Failed { code }
    }
}

} // verus!
