//! The directives handed to the media tool for each operation on files:
//! which streams to take, whether to copy or re-encode them, and how to tag
//! the cover. Inputs, output and overwriting are given to the tool apart.

use vstd::prelude::*;
use crate::text::{dec, decimal};

verus! {

/// The characters of each argument.
pub open spec fn arg_texts(args: Seq<String>) -> Seq<Seq<char>> {
    args.map_values(|a: String| a@)
}

/// The tags that mark the picture stream as the front cover, and the ID3
/// version that players read.
pub open spec fn cover_tags() -> Seq<Seq<char>> {
    seq![
        "-metadata:s:v:0"@,
        "comment=\"Cover (front)\""@,
        "-metadata:s:v:0"@,
        "title=\"Album cover\""@,
        "-disposition:v:0"@,
        "attached_pic"@,
        "-id3v2_version"@,
        "3"@,
    ]
}

/// Muxing (audio first input, cover second): both streams copied as they
/// are, the picture tagged as the front cover.
pub open spec fn mux_args() -> Seq<Seq<char>> {
    seq!["-map"@, "0:a"@, "-map"@, "1:0"@, "-c:v"@, "copy"@, "-c:a"@, "copy"@] + cover_tags()
}

/// Transcoding to mp3 at `bitrate` kbit/s: the audio stream alone, with the
/// same tags as a mux.
pub open spec fn transcode_args(bitrate: u16) -> Seq<Seq<char>> {
    seq!["-map"@, "0:a"@, "-b:a"@, dec(bitrate as nat) + "k"@] + cover_tags()
}

/// Extracting the first picture stream as an image, copied as it is.
pub open spec fn extract_args() -> Seq<Seq<char>> {
    seq!["-map"@, "0:v:0"@, "-c:v"@, "copy"@, "-f"@, "image2"@]
}

/// The decimal notation of a signed integer.
pub open spec fn signed_dec(n: int) -> Seq<char> {
    if n < 0 {
        "-"@ + dec((-n) as nat)
    } else {
        dec(n as nat)
    }
}

/// The failure reported for a media tool that exited with `code`.
pub open spec fn exit_failure(code: int) -> Seq<char> {
    "ffmpeg exited ("@ + signed_dec(code) + ")"@
}

/// What the media tool's exit means: a failure where it exited with a
/// non-zero code; success where it exited with 0 or without a code (ended
/// by a signal).
pub fn exit_outcome(code: Option<i32>) -> (r: Result<(), String>)
    ensures
        match code {
            Some(c) => if c != 0 {
                r matches Err(e) && e@ == exit_failure(c as int)
            } else {
                r is Ok
            },
            None => r is Ok,
        },
{
    match code {
        Some(c) => {
            if c == 0 {
                return Ok(());
            }
            let mut e = String::from_str("ffmpeg exited (");
            if c < 0 {
                e.append("-");
                let digits = decimal((-(c as i64)) as u64);
                e.append(digits.as_str());
            } else {
                let digits = decimal(c as u64);
                e.append(digits.as_str());
            }
            e.append(")");
            Err(e)
        },
        None => Ok(()),
    }
}

fn push_arg(args: &mut Vec<String>, a: &str)
    ensures
        arg_texts(final(args)@) == arg_texts(old(args)@).push(a@),
{
    args.push(String::from_str(a));
    assert(arg_texts(args@) =~= arg_texts(old(args)@).push(a@));
}

fn push_cover_tags(args: &mut Vec<String>)
    ensures
        arg_texts(final(args)@) == arg_texts(old(args)@) + cover_tags(),
{
    push_arg(args, "-metadata:s:v:0");
    push_arg(args, "comment=\"Cover (front)\"");
    push_arg(args, "-metadata:s:v:0");
    push_arg(args, "title=\"Album cover\"");
    push_arg(args, "-disposition:v:0");
    push_arg(args, "attached_pic");
    push_arg(args, "-id3v2_version");
    push_arg(args, "3");
    assert(arg_texts(args@) =~= arg_texts(old(args)@) + cover_tags());
}

/// The directives of a mux (see [`mux_args`]).
pub fn mux_directives() -> (r: Vec<String>)
    ensures
        arg_texts(r@) == mux_args(),
{
    let mut r: Vec<String> = Vec::new();
    push_arg(&mut r, "-map");
    push_arg(&mut r, "0:a");
    push_arg(&mut r, "-map");
    push_arg(&mut r, "1:0");
    push_arg(&mut r, "-c:v");
    push_arg(&mut r, "copy");
    push_arg(&mut r, "-c:a");
    push_arg(&mut r, "copy");
    push_cover_tags(&mut r);
    assert(arg_texts(r@) =~= mux_args());
    r
}

/// The directives of a transcode to mp3 (see [`transcode_args`]).
pub fn transcode_directives(bitrate: u16) -> (r: Vec<String>)
    ensures
        arg_texts(r@) == transcode_args(bitrate),
{
    let mut r: Vec<String> = Vec::new();
    push_arg(&mut r, "-map");
    push_arg(&mut r, "0:a");
    push_arg(&mut r, "-b:a");
    let mut rate = decimal(bitrate as u64);
    rate.append("k");
    push_arg(&mut r, rate.as_str());
    push_cover_tags(&mut r);
    assert(arg_texts(r@) =~= transcode_args(bitrate));
    r
}

/// The directives of a cover extraction (see [`extract_args`]).
pub fn extract_directives() -> (r: Vec<String>)
    ensures
        arg_texts(r@) == extract_args(),
{
    let mut r: Vec<String> = Vec::new();
    push_arg(&mut r, "-map");
    push_arg(&mut r, "0:v:0");
    push_arg(&mut r, "-c:v");
    push_arg(&mut r, "copy");
    push_arg(&mut r, "-f");
    push_arg(&mut r, "image2");
    assert(arg_texts(r@) =~= extract_args());
    r
}

} // verus!
