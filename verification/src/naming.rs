//! Naming of a session's output files: the recordings directory joined with
//! a timestamp rendered from the configured format. The video file and the
//! metadata sidecar share this base name.

use vstd::prelude::*;
use core::fmt::Write;

verus! {

/// Whether chrono's strftime vocabulary can render this format string: its
/// parse yields no error item. This depends on the format string alone, not
/// on the instant being rendered.
pub uninterp spec fn renderable_format(format: Seq<char>) -> bool;

/// Relies on chrono::Local::now and chrono's strftime rendering
/// (DelayedFormat::write_to). A DateTime carries its date, time and offset,
/// so rendering succeeds exactly when the parsed format holds no error item
/// — a property of the format string alone, named `renderable_format`. The
/// rendered text itself depends on the wall clock and the local time zone,
/// so nothing is promised of it; an unrenderable format yields `None`
/// instead of a panic.
#[verifier::external_body]
fn render_local_timestamp(format: &str) -> (r: Option<String>)
    ensures
        r is Some <==> renderable_format(format@),
{
    let mut out = String::new();
    match write!(out, "{}", chrono::Local::now().format(format)) {
        Ok(()) => Some(out),
        Err(_) => None,
    }
}

/// Joins the recordings directory and a rendered timestamp into the base
/// output path: the directory, a separator, and the timestamp, exactly.
pub fn join_output_path(recordings_dir: &str, timestamp: &str) -> (p: String)
    ensures
        p@ == recordings_dir@ + "/"@ + timestamp@,
{
    let mut out = recordings_dir.to_owned();
    out.append("/");
    out.append(timestamp);
    out
}

/// Builds the base output path of a new session: the recordings directory,
/// a separator, and the current instant rendered with `filename_format`,
/// joined by `join_output_path`. Succeeds exactly when the format is
/// renderable, and the result is then the rendering behind the directory
/// prefix.
pub fn make_output_path(recordings_dir: &str, filename_format: &str) -> (r: Option<String>)
    ensures
        r is Some <==> renderable_format(filename_format@),
        r matches Some(p) ==> exists|ts: Seq<char>|
            p@ == #[trigger] (recordings_dir@ + "/"@ + ts),
        r matches Some(p) ==> {
            &&& p@.len() >= recordings_dir@.len() + 1
            &&& p@.subrange(0, recordings_dir@.len() as int) == recordings_dir@
            &&& p@[recordings_dir@.len() as int] == '/'
        },
{
    match render_local_timestamp(filename_format) {
        Some(ts) => {
            let out = join_output_path(recordings_dir, ts.as_str());
            proof {
                reveal_strlit("/");
                assert(out@ == recordings_dir@ + "/"@ + ts@);
                assert(out@.subrange(0, recordings_dir@.len() as int) =~= recordings_dir@);
                assert(out@[recordings_dir@.len() as int] == '/');
            }
            Some(out)
        },
        None => None,
    }
}

} // verus!
