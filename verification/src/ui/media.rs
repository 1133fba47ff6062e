//! The media and sound-board screens' decisions.
use crate::text::{concat_str, decimal, is_blank, trim, trim_str, u64_to_decimal, is_blank_str};
use vstd::prelude::*;

verus! {

/// Playing a URL: when the URL is not blank, nothing is playing and both `yt-dlp` and
/// `ffmpeg` are available, the trimmed URL to play; otherwise nothing.
pub fn media_play_request(url: &str, media_playing: bool, has_ytdlp: bool, has_ffmpeg: bool) -> (r: Option<String>)
    ensures
        (!is_blank(url@) && !media_playing && has_ytdlp && has_ffmpeg) ==> (r matches Some(u)
            && u@ == trim(url@)),
        !(!is_blank(url@) && !media_playing && has_ytdlp && has_ffmpeg) ==> r is None,
{
    if !is_blank_str(url) && !media_playing && has_ytdlp && has_ffmpeg {
        Some(trim_str(url).to_owned())
    } else {
        None
    }
}

/// Whether an application's audio can be captured: no capture is running and the
/// virtual device is ready.
pub fn can_capture(is_capturing: bool, device_ready: bool) -> (r: bool)
    ensures
        r == (!is_capturing && device_ready),
{
    !is_capturing && device_ready
}

/// The label of a capturable application: `{name} (ID: {id})`.
pub fn sink_input_label(name: &str, id: u32) -> (r: String)
    ensures
        r@ == name@ + " (ID: "@ + decimal(id as nat) + ")"@,
{
    concat_str(name, " (ID: ").concat(u64_to_decimal(id as u64).as_str()).concat(")")
}

/// Whether the sound-board buttons are enabled: nothing is playing or being synthesized.
pub fn soundboard_enabled(is_playing: bool, is_synthesizing: bool) -> (r: bool)
    ensures
        r == (!is_playing && !is_synthesizing),
{
    !is_playing && !is_synthesizing
}

} // verus!
