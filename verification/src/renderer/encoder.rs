//! The command line that encodes a frame sequence into a video file.

use vstd::prelude::*;
use crate::digits::{append_decimal, spec_decimal_chars};

verus! {

/// The arguments in front of the optional audio input: overwrite the
/// output, read an image sequence at the given frame rate from the frame
/// pattern.
pub open spec fn spec_input_args(frame_pattern: Seq<char>, fps: u32) -> Seq<Seq<char>> {
    seq![
        "-y"@,
        "-f"@,
        "image2"@,
        "-framerate"@,
        spec_decimal_chars(fps as nat),
        "-i"@,
        frame_pattern,
    ]
}

/// The arguments for the video stream: H.264, a pixel format that players
/// understand, and the frame size as `WIDTHxHEIGHT`.
pub open spec fn spec_video_args(width: u32, height: u32) -> Seq<Seq<char>> {
    seq![
        "-c:v"@,
        "libx264"@,
        "-pix_fmt"@,
        "yuv420p"@,
        "-s"@,
        spec_decimal_chars(width as nat) + "x"@ + spec_decimal_chars(height as nat),
    ]
}

/// The arguments of the encoder: the inputs, the audio file as a second
/// input where there is one, the video settings, with audio the audio codec
/// and the instruction to stop with the shorter stream, and the output path
/// last.
pub open spec fn spec_encode_args(
    frame_pattern: Seq<char>,
    output_path: Seq<char>,
    fps: u32,
    width: u32,
    height: u32,
    audio_path: Option<Seq<char>>,
) -> Seq<Seq<char>> {
    match audio_path {
        Some(audio) => spec_input_args(frame_pattern, fps) + seq!["-i"@, audio] + spec_video_args(
            width,
            height,
        ) + seq!["-c:a"@, "aac"@, "-shortest"@] + seq![output_path],
        None => spec_input_args(frame_pattern, fps) + spec_video_args(width, height) + seq![
            output_path,
        ],
    }
}

/// The strings of a list as plain values.
pub open spec fn spec_strings(list: Seq<String>) -> Seq<Seq<char>> {
    list.map_values(|s: String| s@)
}

/// Handles video encoding by an external encoder process.
pub struct VideoEncoder;

impl VideoEncoder {
    /// The name of the program that encodes.
    pub fn program() -> (name: &'static str)
        ensures
            name@ == "ffmpeg"@,
    {
        "ffmpeg"
    }

    /// The arguments with which the encoder turns the frames that match
    /// `frame_pattern`, and the audio file if there is one, into the video
    /// file at `output_path`.
    pub fn encode_args(
        frame_pattern: &str,
        output_path: &str,
        fps: u32,
        width: u32,
        height: u32,
        audio_path: Option<&str>,
    ) -> (args: Vec<String>)
        ensures
            spec_strings(args@) == spec_encode_args(
                frame_pattern@,
                output_path@,
                fps,
                width,
                height,
                match audio_path {
                    Some(audio) => Some(audio@),
                    None => None,
                },
            ),
    {
        let mut args: Vec<String> = Vec::new();
        args.push(String::from_str("-y"));
        args.push(String::from_str("-f"));
        args.push(String::from_str("image2"));
        args.push(String::from_str("-framerate"));
        let mut rate = String::new();
        append_decimal(&mut rate, fps as u64);
        assert(rate@ =~= spec_decimal_chars(fps as nat));
        args.push(rate);
        args.push(String::from_str("-i"));
        args.push(String::from_str(frame_pattern));
        assert(spec_strings(args@) =~= spec_input_args(frame_pattern@, fps));
        let ghost inputs = spec_strings(args@);
        match audio_path {
            Some(audio) => {
                args.push(String::from_str("-i"));
                args.push(String::from_str(audio));
                assert(spec_strings(args@) =~= inputs + seq!["-i"@, audio@]);
            },
            None => {},
        }
        let ghost with_audio = spec_strings(args@);
        args.push(String::from_str("-c:v"));
        args.push(String::from_str("libx264"));
        args.push(String::from_str("-pix_fmt"));
        args.push(String::from_str("yuv420p"));
        args.push(String::from_str("-s"));
        let mut size = String::new();
        append_decimal(&mut size, width as u64);
        size.append("x");
        append_decimal(&mut size, height as u64);
        assert(size@ =~= spec_decimal_chars(width as nat) + "x"@ + spec_decimal_chars(
            height as nat,
        ));
        args.push(size);
        assert(spec_strings(args@) =~= with_audio + spec_video_args(width, height));
        let ghost with_video = spec_strings(args@);
        if audio_path.is_some() {
            args.push(String::from_str("-c:a"));
            args.push(String::from_str("aac"));
            args.push(String::from_str("-shortest"));
            assert(spec_strings(args@) =~= with_video + seq!["-c:a"@, "aac"@, "-shortest"@]);
        }
        let ghost with_codec = spec_strings(args@);
        args.push(String::from_str(output_path));
        assert(spec_strings(args@) =~= with_codec + seq![output_path@]);
        args
    }
}

} // verus!
