//! What playback through `paplay` sends: raw PCM and its format.
use crate::audio::virtual_device::args_view;
use vstd::prelude::*;

verus! {

/// Length of the WAV header that `paplay --raw` must not receive.
pub const WAV_HEADER_LEN: usize = 44;

/// Whether `wav` starts with the bytes of `RIFF`.
pub open spec fn starts_with_riff(wav: Seq<u8>) -> bool {
    &&& wav.len() >= 4
    &&& wav[0] == 0x52u8
    &&& wav[1] == 0x49u8
    &&& wav[2] == 0x46u8
    &&& wav[3] == 0x46u8
}

/// The PCM samples of WAV data: what follows the 44-byte header when the data is longer
/// than the header and starts with `RIFF`; otherwise the data unchanged.
pub open spec fn pcm_of(wav: Seq<u8>) -> Seq<u8> {
    if wav.len() > WAV_HEADER_LEN && starts_with_riff(wav) {
        wav.skip(WAV_HEADER_LEN as int)
    } else {
        wav
    }
}

/// The PCM samples of WAV data (see `pcm_of`).
pub fn pcm_payload(wav: &[u8]) -> (r: Vec<u8>)
    ensures
        r@ == pcm_of(wav@),
{
    let start: usize = if wav.len() > WAV_HEADER_LEN && wav[0] == 0x52u8 && wav[1] == 0x49u8
        && wav[2] == 0x46u8 && wav[3] == 0x46u8 {
        WAV_HEADER_LEN
    } else {
        0
    };
    let mut r: Vec<u8> = Vec::new();
    let mut i: usize = start;
    while i < wav.len()
        invariant
            start <= i <= wav@.len(),
            r@ == wav@.subrange(start as int, i as int),
        decreases wav@.len() - i,
    {
        r.push(wav[i]);
        proof {
            assert(wav@.subrange(start as int, i + 1) =~= wav@.subrange(start as int, i as int).push(
                wav@[i as int],
            ));
        }
        i = i + 1;
    }
    proof {
        assert(wav@.subrange(start as int, wav@.len() as int) =~= pcm_of(wav@));
    }
    r
}

/// The `paplay` arguments that play raw 24 kHz mono 16-bit little-endian PCM on
/// `device_name`.
pub open spec fn paplay_args_for(device_name: Seq<char>) -> Seq<Seq<char>> {
    seq![
        "--device"@,
        device_name,
        "--raw"@,
        "--format=s16le"@,
        "--rate=24000"@,
        "--channels=1"@,
    ]
}

/// The `paplay` arguments (see `paplay_args_for`).
pub fn paplay_args(device_name: &str) -> (r: Vec<String>)
    ensures
        args_view(r@) == paplay_args_for(device_name@),
{
    let mut r: Vec<String> = Vec::new();
    r.push("--device".to_owned());
    r.push(device_name.to_owned());
    r.push("--raw".to_owned());
    r.push("--format=s16le".to_owned());
    r.push("--rate=24000".to_owned());
    r.push("--channels=1".to_owned());
    proof {
        assert(args_view(r@) =~= paplay_args_for(device_name@));
    }
    r
}

} // verus!
