use vstd::prelude::*;
use vstd::string::StringExecFns;

use crate::prompts::{lower_of, lowercase};
use crate::text::same_text;

verus! {

/// How an input file is decoded.
#[derive(Clone, Copy, PartialEq, Eq, Structural, Debug)]
pub enum AudioFormat {
    /// An Ogg stream of Opus packets, decoded at 48 kHz.
    Opus,
    /// A container (WAV, MP3, FLAC, Ogg Vorbis, M4A) read by the general demuxer, at the
    /// rate the file declares.
    Container,
}

/// What `Path::extension` gives for a path: the text after the last dot of the file name.
pub uninterp spec fn extension_of(path: Seq<char>) -> Seq<char>;

/// Relies on `std::path::Path::extension`: the extension of the file name, or an empty
/// text when there is none; a function of the path alone.
#[verifier::external_body]
fn file_extension(path: &str) -> (r: String)
    ensures
        r@ == extension_of(path@),
{
    match std::path::Path::new(path).extension() {
        Some(e) => e.to_string_lossy().into_owned(),
        None => String::new(),
    }
}

/// The format for a lower-case extension, if it is one the pipeline reads.
pub open spec fn format_spec(lowered: Seq<char>) -> Option<AudioFormat> {
    if lowered == "opus"@ {
        Some(AudioFormat::Opus)
    } else if lowered == "wav"@ || lowered == "mp3"@ || lowered == "flac"@ || lowered == "ogg"@
        || lowered == "m4a"@ {
        Some(AudioFormat::Container)
    } else {
        None
    }
}

/// The format for an extension that is already lower case.
pub fn format_for_lowered(lowered: &str) -> (r: Option<AudioFormat>)
    ensures
        r == format_spec(lowered@),
{
    if same_text(lowered, "opus") {
        Some(AudioFormat::Opus)
    } else if same_text(lowered, "wav") || same_text(lowered, "mp3") || same_text(lowered, "flac")
        || same_text(lowered, "ogg") || same_text(lowered, "m4a") {
        Some(AudioFormat::Container)
    } else {
        None
    }
}

/// The decoder for the file at `path`, chosen by its extension in any case; an unknown
/// extension is refused with a message that names it.
pub fn audio_format(path: &str) -> (r: Result<AudioFormat, String>)
    ensures
        ({
            let ext = extension_of(path@);
            match format_spec(lower_of(ext)) {
                Some(f) => r == Ok::<AudioFormat, String>(f),
                None => r matches Err(m) && m@ == "Formato no soportado: "@ + ext,
            }
        }),
{
    let ext = file_extension(path);
    let lowered = lowercase(ext.as_str());
    match format_for_lowered(lowered.as_str()) {
        Some(f) => Ok(f),
        None => {
            let mut m = String::from_str("Formato no soportado: ");
            m.append(ext.as_str());
            Err(m)
        },
    }
}


/// Sample rate of decoded Opus audio, in Hz.
pub const OPUS_RATE: u32 = 48000;

/// Most samples per channel in one Opus packet (120 ms at 48 kHz).
pub const OPUS_MAX_FRAME: usize = 5760;

/// What to do with one packet of an Ogg Opus stream.
#[derive(Clone, Copy, PartialEq, Eq, Structural, Debug)]
pub enum OpusStep {
    /// The identification header: open a decoder for this many channels.
    Open(u8),
    /// A packet that carries no audio here: headers before the identification header,
    /// and the comment header.
    Skip,
    /// An audio packet for the open decoder.
    Decode,
    /// An identification header too short to hold its channel count.
    Truncated,
}

/// `data` starts with `prefix`.
pub open spec fn starts_with(data: Seq<u8>, prefix: Seq<u8>) -> bool {
    prefix.len() <= data.len() && data.subrange(0, prefix.len() as int) == prefix
}

pub open spec fn opus_head() -> Seq<u8> {
    seq![0x4fu8, 0x70u8, 0x75u8, 0x73u8, 0x48u8, 0x65u8, 0x61u8, 0x64u8]
}

pub open spec fn opus_tags() -> Seq<u8> {
    seq![0x4fu8, 0x70u8, 0x75u8, 0x73u8, 0x54u8, 0x61u8, 0x67u8, 0x73u8]
}

/// The step for a packet, given whether a decoder is open yet. Until the identification
/// header ("OpusHead", channel count at byte 9) every packet is skipped; after it, the
/// comment header ("OpusTags") is skipped and the rest is audio.
pub open spec fn opus_step_spec(decoder_open: bool, data: Seq<u8>) -> OpusStep {
    if !decoder_open {
        if starts_with(data, opus_head()) {
            if data.len() > 9 {
                OpusStep::Open(data[9])
            } else {
                OpusStep::Truncated
            }
        } else {
            OpusStep::Skip
        }
    } else if starts_with(data, opus_tags()) {
        OpusStep::Skip
    } else {
        OpusStep::Decode
    }
}

fn has_prefix(data: &[u8], prefix: &[u8]) -> (r: bool)
    ensures
        r == starts_with(data@, prefix@),
{
    if prefix.len() > data.len() {
        return false;
    }
    let mut i: usize = 0;
    while i < prefix.len()
        invariant
            prefix.len() <= data.len(),
            i <= prefix.len(),
            forall|j: int| 0 <= j < i ==> data@[j] == prefix@[j],
        decreases prefix.len() - i,
    {
        if data[i] != prefix[i] {
            assert(data@.subrange(0, prefix@.len() as int)[i as int] != prefix@[i as int]);
            return false;
        }
        i = i + 1;
    }
    assert(data@.subrange(0, prefix@.len() as int) =~= prefix@);
    true
}

pub fn opus_step(decoder_open: bool, data: &[u8]) -> (r: OpusStep)
    ensures
        r == opus_step_spec(decoder_open, data@),
{
    let head: [u8; 8] = [0x4f, 0x70, 0x75, 0x73, 0x48, 0x65, 0x61, 0x64];
    let tags: [u8; 8] = [0x4f, 0x70, 0x75, 0x73, 0x54, 0x61, 0x67, 0x73];
    assert(head@ =~= opus_head());
    assert(tags@ =~= opus_tags());
    if !decoder_open {
        if has_prefix(data, head.as_slice()) {
            if data.len() > 9 {
                OpusStep::Open(data[9])
            } else {
                OpusStep::Truncated
            }
        } else {
            OpusStep::Skip
        }
    } else if has_prefix(data, tags.as_slice()) {
        OpusStep::Skip
    } else {
        OpusStep::Decode
    }
}

/// Samples of room to give the decoder for one packet: the longest packet, interleaved.
pub fn opus_buffer_len(channels: u8) -> (r: usize)
    ensures
        r == OPUS_MAX_FRAME * channels,
{
    OPUS_MAX_FRAME * channels as usize
}

/// Decoded audio is averaged to mono when, and only when, it has two channels.
pub fn needs_downmix(channels: usize) -> (r: bool)
    ensures
        r == (channels == 2),
{
    channels == 2
}

} // verus!
