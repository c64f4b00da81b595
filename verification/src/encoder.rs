//! The command line of the encoder.

use vstd::prelude::*;
use crate::cli::Conv2JxlArgs;
use crate::text::{decimal, decimal_string, signed_decimal, signed_decimal_string};

verus! {

/// The name of the encoder program.
pub fn encoder_program() -> (r: &'static str)
    ensures
        r@ == "cjxl"@,
{
    "cjxl"
}

/// The arguments with which the encoder is run on `input` to write `output`
/// at the given quality: the two paths, the quality, the effort, the number
/// of threads, the switch for lossless JPEG recompression, and the request
/// to stay quiet; where JPEG reconstruction is switched off, the three
/// arguments that say so follow.
pub open spec fn encoder_arguments(
    input: Seq<char>,
    output: Seq<char>,
    quality: u8,
    args: Conv2JxlArgs,
) -> Seq<Seq<char>> {
    let always = seq![
        input,
        output,
        "-q"@,
        decimal(quality as nat),
        "-e"@,
        decimal(args.effort as nat),
        "--num_threads"@,
        signed_decimal(args.threads as int),
        "--lossless_jpeg"@,
        if args.lossless_jpeg {
            "1"@
        } else {
            "0"@
        },
        "--quiet"@,
    ];
    if args.disable_jpeg_reconstruction {
        always + seq!["--allow_expert_options"@, "--allow_jpeg_reconstruction"@, "0"@]
    } else {
        always
    }
}

/// The texts of a list of strings.
pub open spec fn texts(list: Seq<String>) -> Seq<Seq<char>> {
    Seq::new(list.len(), |i: int| list[i]@)
}

/// Builds the arguments of one run of the encoder.
pub fn encoder_args(input: &str, output: &str, quality: u8, args: &Conv2JxlArgs) -> (r: Vec<String>)
    ensures
        texts(r@) == encoder_arguments(input@, output@, quality, *args),
{
    let mut r: Vec<String> = Vec::new();
    r.push(input.to_owned());
    r.push(output.to_owned());
    r.push("-q".to_owned());
    r.push(decimal_string(quality as u64));
    r.push("-e".to_owned());
    r.push(decimal_string(args.effort as u64));
    r.push("--num_threads".to_owned());
    r.push(signed_decimal_string(args.threads));
    r.push("--lossless_jpeg".to_owned());
    r.push(
        if args.lossless_jpeg {
            "1".to_owned()
        } else {
            "0".to_owned()
        },
    );
    r.push("--quiet".to_owned());
    if args.disable_jpeg_reconstruction {
        r.push("--allow_expert_options".to_owned());
        r.push("--allow_jpeg_reconstruction".to_owned());
        r.push("0".to_owned());
    }
    r
}

} // verus!
