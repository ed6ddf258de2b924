use vstd::prelude::*;

use crate::compare::CompareError;
use crate::render::ImageInfo;
use crate::text::{decimal, push_decimal};

verus! {

/// A command of the command-line tool.
#[derive(Debug, PartialEq, Eq)]
pub enum CliCommand {
    /// Develop a NEF file into a JPEG.
    Convert { input: String, output: String },
    /// Compare our JPEG with a reference export.
    Compare { ours: String, reference: String },
    /// Print the raw-development parameters of a NEF file.
    RawParams { input: String },
}

/// A command, its paths taken as text.
pub enum CommandView {
    Convert { input: Seq<char>, output: Seq<char> },
    Compare { ours: Seq<char>, reference: Seq<char> },
    RawParams { input: Seq<char> },
}

impl View for CliCommand {
    type V = CommandView;

    open spec fn view(&self) -> CommandView {
        match self {
            CliCommand::Convert { input, output } => CommandView::Convert { input: input@, output: output@ },
            CliCommand::Compare { ours, reference } => CommandView::Compare { ours: ours@, reference: reference@ },
            CliCommand::RawParams { input } => CommandView::RawParams { input: input@ },
        }
    }
}

pub open spec fn general_usage() -> Seq<char> {
    "usage: nefoxide-cli <convert <input.nef> <output.jpg>|compare <ours.jpg> <reference.jpg>|raw-params <input.nef>>"@
}

pub open spec fn convert_usage() -> Seq<char> {
    "usage: nefoxide-cli convert <input.nef> <output.jpg>"@
}

pub open spec fn compare_usage() -> Seq<char> {
    "usage: nefoxide-cli compare <ours.jpg> <reference.jpg>"@
}

pub open spec fn raw_params_usage() -> Seq<char> {
    "usage: nefoxide-cli raw-params <input.nef>"@
}

/// The command that the command line `args` (program name first) asks for, or
/// the message that says what is wrong with it.
pub open spec fn command_of(args: Seq<Seq<char>>) -> Result<CommandView, Seq<char>> {
    if args.len() < 2 {
        Err(general_usage())
    } else if args[1] == "convert"@ {
        if args.len() < 3 {
            Err("missing input NEF path"@)
        } else if args.len() < 4 {
            Err("missing output JPG path"@)
        } else if args.len() > 4 {
            Err(convert_usage())
        } else {
            Ok(CommandView::Convert { input: args[2], output: args[3] })
        }
    } else if args[1] == "compare"@ {
        if args.len() < 3 {
            Err("missing first image path"@)
        } else if args.len() < 4 {
            Err("missing reference image path"@)
        } else if args.len() > 4 {
            Err(compare_usage())
        } else {
            Ok(CommandView::Compare { ours: args[2], reference: args[3] })
        }
    } else if args[1] == "raw-params"@ {
        if args.len() < 3 {
            Err("missing input NEF path"@)
        } else if args.len() > 3 {
            Err(raw_params_usage())
        } else {
            Ok(CommandView::RawParams { input: args[2] })
        }
    } else {
        Err(general_usage())
    }
}

/// The texts of the arguments.
pub open spec fn arg_texts(args: Seq<String>) -> Seq<Seq<char>> {
    args.map_values(|s: String| s@)
}

/// Reads the command line `args`, program name first.
pub fn parse_command(args: &Vec<String>) -> (r: Result<CliCommand, String>)
    ensures
        r is Ok <==> command_of(arg_texts(args@)) is Ok,
        r matches Ok(c) ==> command_of(arg_texts(args@)) == Ok::<CommandView, Seq<char>>(c@),
        r matches Err(m) ==> command_of(arg_texts(args@)) == Err::<CommandView, Seq<char>>(m@),
{
    let ghost texts = arg_texts(args@);
    let n: usize = args.len();
    if n < 2 {
        return Err(String::from_str(
            "usage: nefoxide-cli <convert <input.nef> <output.jpg>|compare <ours.jpg> <reference.jpg>|raw-params <input.nef>>",
        ));
    }
    assert(texts[1] == args@[1]@);
    let convert = String::from_str("convert");
    let compare = String::from_str("compare");
    let raw_params = String::from_str("raw-params");
    if args[1] == convert {
        if n < 3 {
            Err(String::from_str("missing input NEF path"))
        } else if n < 4 {
            Err(String::from_str("missing output JPG path"))
        } else if n > 4 {
            Err(String::from_str("usage: nefoxide-cli convert <input.nef> <output.jpg>"))
        } else {
            assert(texts[2] == args@[2]@ && texts[3] == args@[3]@);
            Ok(CliCommand::Convert { input: args[2].clone(), output: args[3].clone() })
        }
    } else if args[1] == compare {
        if n < 3 {
            Err(String::from_str("missing first image path"))
        } else if n < 4 {
            Err(String::from_str("missing reference image path"))
        } else if n > 4 {
            Err(String::from_str("usage: nefoxide-cli compare <ours.jpg> <reference.jpg>"))
        } else {
            assert(texts[2] == args@[2]@ && texts[3] == args@[3]@);
            Ok(CliCommand::Compare { ours: args[2].clone(), reference: args[3].clone() })
        }
    } else if args[1] == raw_params {
        if n < 3 {
            Err(String::from_str("missing input NEF path"))
        } else if n > 3 {
            Err(String::from_str("usage: nefoxide-cli raw-params <input.nef>"))
        } else {
            assert(texts[2] == args@[2]@);
            Ok(CliCommand::RawParams { input: args[2].clone() })
        }
    } else {
        Err(String::from_str(
            "usage: nefoxide-cli <convert <input.nef> <output.jpg>|compare <ours.jpg> <reference.jpg>|raw-params <input.nef>>",
        ))
    }
}

/// The line that reports a finished conversion.
pub open spec fn conversion_summary_text(input: Seq<char>, output: Seq<char>, info: ImageInfo) -> Seq<char> {
    "converted "@ + input + " -> "@ + output + " ("@ + decimal(info.width as nat) + "x"@
        + decimal(info.height as nat) + ", "@ + decimal(info.byte_depth as nat) + " byte/channel)"@
}

/// The line that reports a finished conversion of `input` into `output`.
pub fn conversion_summary(input: &str, output: &str, info: &ImageInfo) -> (r: String)
    ensures
        r@ == conversion_summary_text(input@, output@, *info),
{
    let mut s = String::from_str("converted ");
    s.append(input);
    s.append(" -> ");
    s.append(output);
    s.append(" (");
    push_decimal(&mut s, info.width as u64);
    s.append("x");
    push_decimal(&mut s, info.height as u64);
    s.append(", ");
    push_decimal(&mut s, info.byte_depth as u64);
    s.append(" byte/channel)");
    s
}

/// A pair of dimensions as a tuple's debug form shows it.
pub open spec fn dimensions_text(width: u32, height: u32) -> Seq<char> {
    "("@ + decimal(width as nat) + ", "@ + decimal(height as nat) + ")"@
}

/// The message for two images of different dimensions.
pub open spec fn compare_error_text(e: CompareError, ours: Seq<char>, reference: Seq<char>) -> Seq<char> {
    match e {
        CompareError::DimensionsDiffer { ours_width, ours_height, reference_width, reference_height } =>
            "image dimensions differ: "@ + ours + " is "@ + dimensions_text(ours_width, ours_height) + ", "@
                + reference + " is "@ + dimensions_text(reference_width, reference_height),
    }
}

fn push_dimensions(out: &mut String, width: u32, height: u32)
    ensures
        final(out)@ == old(out)@ + dimensions_text(width, height),
{
    out.append("(");
    push_decimal(out, width as u64);
    out.append(", ");
    push_decimal(out, height as u64);
    out.append(")");
}

impl CompareError {
    /// The message for this error, naming our image `ours` and the reference
    /// `reference`.
    pub fn message(&self, ours: &str, reference: &str) -> (r: String)
        ensures
            r@ == compare_error_text(*self, ours@, reference@),
    {
        match self {
            CompareError::DimensionsDiffer { ours_width, ours_height, reference_width, reference_height } => {
                let mut s = String::from_str("image dimensions differ: ");
                s.append(ours);
                s.append(" is ");
                push_dimensions(&mut s, *ours_width, *ours_height);
                s.append(", ");
                s.append(reference);
                s.append(" is ");
                push_dimensions(&mut s, *reference_width, *reference_height);
                s
            },
        }
    }
}

} // verus!
