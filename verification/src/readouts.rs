//! Texts of the status bar, the statistics and the empty view.

use crate::session::Recording;
use crate::sources::CameraSource;
use crate::sources::SourceId;
use crate::text;
use vstd::prelude::*;
use vstd::string::*;

verus! {

/// The recording indicator of the status bar.
pub fn recording_text(r: &Recording) -> (t: String)
    ensures
        t@ == "\u{25CF} REC "@ + r.filename@ + " \u{b7} "@ + text::decimal(r.frames as int)
            + " frames"@,
{
    let n: String = text::int_text(r.frames as i128);
    text::join5("\u{25CF} REC ", r.filename.as_str(), " \u{b7} ", n.as_str(), " frames")
}

/// The size of a frame in the status bar.
pub fn size_text(width: u32, height: u32) -> (t: String)
    ensures
        t@ == text::decimal(width as int) + "\u{d7}"@ + text::decimal(height as int),
{
    let w: String = text::int_text(width as i128);
    let h: String = text::int_text(height as i128);
    text::join3(w.as_str(), "\u{d7}", h.as_str())
}

/// The size of a frame among the statistics.
pub fn size_row(width: u32, height: u32) -> (t: String)
    ensures
        t@ == text::decimal(width as int) + " x "@ + text::decimal(height as int),
{
    let w: String = text::int_text(width as i128);
    let h: String = text::int_text(height as i128);
    text::join3(w.as_str(), " x ", h.as_str())
}

/// The bit depth of a frame in the status bar.
pub fn depth_text(bit_depth: u8) -> (t: String)
    ensures
        t@ == text::decimal(bit_depth as int) + "-bit"@,
{
    let d: String = text::int_text(bit_depth as i128);
    text::join2(d.as_str(), "-bit")
}

/// What the empty view suggests.
pub fn empty_hint(source: &CameraSource, label: &str) -> (t: String)
    ensures
        t@ == (if source@ == SourceId::NoSource {
            "Open a FITS file or connect a camera to begin"@
        } else {
            "Press Play to start  "@ + label@
        }),
{
    match source {
        CameraSource::NoSource => "Open a FITS file or connect a camera to begin".to_string(),
        _ => text::join2("Press Play to start  ", label),
    }
}

/// How many of the candidate stars were measured.
pub fn measured_text(measured: usize, candidates: usize) -> (t: String)
    ensures
        t@ == text::decimal(measured as int) + " of "@ + text::decimal(candidates as int),
{
    let m: String = text::int_text(measured as i128);
    let c: String = text::int_text(candidates as i128);
    text::join3(m.as_str(), " of ", c.as_str())
}

/// Where the focuser stood at the best value.
pub fn focuser_text(position: i32) -> (t: String)
    ensures
        t@ == "@ "@ + text::decimal(position as int),
{
    let p: String = text::int_text(position as i128);
    text::join2("@ ", p.as_str())
}

// ---------------------------------------------------------------------------
// Laws

/// A recording reads as its file and its frames.
pub proof fn law_recording_is_shown(r: Recording, t: String)
    requires
        call_ensures(recording_text, (&r,), t),
    ensures
        t@ == "\u{25CF} REC "@ + r.filename@ + " \u{b7} "@ + text::decimal(r.frames as int)
            + " frames"@,
{
}

/// Sizes read as width, then height, wherever they stand.
pub proof fn law_sizes_read_width_first(
    width: u32,
    height: u32,
    bit_depth: u8,
    a: String,
    b: String,
    c: String,
)
    requires
        call_ensures(size_text, (width, height), a),
        call_ensures(size_row, (width, height), b),
        call_ensures(depth_text, (bit_depth,), c),
    ensures
        a@ == text::decimal(width as int) + "\u{d7}"@ + text::decimal(height as int),
        b@ == text::decimal(width as int) + " x "@ + text::decimal(height as int),
        c@ == text::decimal(bit_depth as int) + "-bit"@,
{
}

/// The empty view asks for a source where none is selected, and names the one
/// to play where one is.
pub proof fn law_empty_view_says_what_to_do(source: CameraSource, label: &str, t: String)
    requires
        call_ensures(empty_hint, (&source, label), t),
    ensures
        source is NoSource ==> t@ == "Open a FITS file or connect a camera to begin"@,
        source !is NoSource ==> t@ == "Press Play to start  "@ + label@,
{
}

/// Measured stars come before the candidates, and a focuser position is marked
/// as one.
pub proof fn law_counts_read_in_order(
    measured: usize,
    candidates: usize,
    position: i32,
    a: String,
    b: String,
)
    requires
        call_ensures(measured_text, (measured, candidates), a),
        call_ensures(focuser_text, (position,), b),
    ensures
        a@ == text::decimal(measured as int) + " of "@ + text::decimal(candidates as int),
        b@ == "@ "@ + text::decimal(position as int),
{
}

} // verus!
