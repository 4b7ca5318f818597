//! The capture resource adapter's data: the states of the exclusive native
//! capture handle, and the settings a new handle is configured with.

use vstd::prelude::*;

verus! {

/// Title of the game client's top-level window.
pub const WINDOW_TITLE: &'static str = "League of Legends (TM) Client";

/// Window class of the game client's top-level window.
pub const WINDOW_CLASS: &'static str = "RiotWindowClass";

/// Process name of the game client.
pub const WINDOW_PROCESS: &'static str = "League of Legends.exe";

/// The state of the single, exclusive capture handle.
#[derive(Clone, Copy, PartialEq, Eq, Structural, Debug)]
pub enum CaptureState {
    /// No native handle is alive.
    Absent,
    /// A handle has been configured against a found window, but capture has
    /// not started.
    Configured,
    /// The handle is writing video to its output path.
    Recording,
}

/// A pixel size.
#[derive(Clone, Copy, PartialEq, Eq, Structural, Debug)]
pub struct Size {
    pub width: u32,
    pub height: u32,
}

/// The configuration the orchestrator reads once per session: output
/// resolution, framerate, encoding quality, audio toggle and the
/// timestamp format for output names.
pub struct CaptureConfig {
    pub output_size: Size,
    pub framerate: u32,
    pub encoding_quality: u32,
    pub record_audio: bool,
    pub recordings_path: String,
    pub filename_format: String,
}

/// Everything a fresh capture handle is configured with.
pub struct RecorderSettings {
    pub window_title: String,
    pub window_class: String,
    pub window_process: String,
    pub input_size: Size,
    pub output_size: Size,
    pub framerate: u32,
    pub encoding_quality: u32,
    pub record_audio: bool,
    pub output_path: String,
}

/// The input resolution assumed when the window's client area cannot be
/// probed.
pub open spec fn fallback_input_size() -> Size {
    Size { width: 1920, height: 1080 }
}

/// Derives the client-area size from the probe's raw rectangle, which is
/// degenerate — and therefore unusable — unless both extents are positive.
pub fn window_client_size(right: i32, bottom: i32) -> (r: Option<Size>)
    ensures
        r == if right > 0 && bottom > 0 {
            Some(Size { width: right as u32, height: bottom as u32 })
        } else {
            None::<Size>
        },
{
    if right > 0 && bottom > 0 {
        Some(Size { width: right as u32, height: bottom as u32 })
    } else {
        None
    }
}

/// Builds the settings for one fresh capture handle: the fixed window
/// descriptor, the probed input size (or the fallback when the probe
/// failed), the configured output parameters, and the session's output path.
pub fn build_recorder_settings(
    cfg: &CaptureConfig,
    probed: Option<Size>,
    output_path: String,
) -> (r: RecorderSettings)
    ensures
        r.window_title@ == WINDOW_TITLE@,
        r.window_class@ == WINDOW_CLASS@,
        r.window_process@ == WINDOW_PROCESS@,
        r.input_size == match probed {
            Some(s) => s,
            None => fallback_input_size(),
        },
        r.output_size == cfg.output_size,
        r.framerate == cfg.framerate,
        r.encoding_quality == cfg.encoding_quality,
        r.record_audio == cfg.record_audio,
        r.output_path == output_path,
{
    let input_size = match probed {
        Some(s) => s,
        None => Size { width: 1920, height: 1080 },
    };
    RecorderSettings {
        window_title: WINDOW_TITLE.to_owned(),
        window_class: WINDOW_CLASS.to_owned(),
        window_process: WINDOW_PROCESS.to_owned(),
        input_size,
        output_size: cfg.output_size,
        framerate: cfg.framerate,
        encoding_quality: cfg.encoding_quality,
        record_audio: cfg.record_audio,
        output_path,
    }
}

} // verus!
