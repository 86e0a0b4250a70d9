//! Turning Word documents into PDFs with pandoc: the file it writes, the command
//! line it gets, and what each failure reports.

use vstd::prelude::*;
use vstd::string::*;

verus! {

/// Why a conversion did not produce a PDF.
pub enum ConversionError {
    /// The document does not exist (its path as shown).
    InputNotFound(String),
    /// The converter has no temporary directory to write to.
    NoTempDir,
    /// The document's name has no usable stem.
    InvalidFileName,
    /// pandoc could not be started.
    PandocNotRun,
    /// pandoc ran and failed, printing this on stderr and stdout.
    PandocFailed { stderr: String, stdout: String },
    /// pandoc reported success but wrote no file at this path (as shown).
    OutputMissing(String),
}

/// The name of the PDF written for a document named `stem` plus an extension.
pub open spec fn converted_name_spec(stem: Seq<char>) -> Seq<char> {
    stem + ".pdf"@
}

/// The arguments pandoc gets: the document, `-o` and the PDF to write, and the LaTeX
/// engine to render with.
pub open spec fn pandoc_arguments_spec(input: Seq<char>, output: Seq<char>) -> Seq<Seq<char>> {
    seq![input, "-o"@, output, "--pdf-engine=pdflatex"@]
}

/// What a conversion failure reports.
pub open spec fn error_message_spec(e: ConversionError) -> Seq<char> {
    match e {
        ConversionError::InputNotFound(path) => "Input file not found: "@ + path@,
        ConversionError::NoTempDir => "Temporary directory not available"@,
        ConversionError::InvalidFileName => "Invalid filename"@,
        ConversionError::PandocNotRun => "Failed to execute Pandoc. Ensure Pandoc is installed and in your system PATH. Download from https://pandoc.org/installing.html"@,
        ConversionError::PandocFailed { stderr, stdout } => "Pandoc conversion failed.\nStderr: "@
            + stderr@ + "\nStdout: "@ + stdout@,
        ConversionError::OutputMissing(path) => "Conversion appeared to succeed but PDF file not found at: "@
            + path@,
    }
}

/// The name of the PDF written for a document whose name has stem `stem`.
pub fn converted_pdf_name(stem: &str) -> (name: String)
    ensures
        name@ == converted_name_spec(stem@),
{
    let mut name = String::from_str(stem);
    name.append(".pdf");
    name
}

/// The command line pandoc runs with (see `pandoc_arguments_spec`).
pub fn pandoc_arguments(input: &str, output: &str) -> (args: Vec<String>)
    ensures
        args@.map_values(|a: String| a@) == pandoc_arguments_spec(input@, output@),
{
    let mut args: Vec<String> = Vec::new();
    args.push(String::from_str(input));
    args.push(String::from_str("-o"));
    args.push(String::from_str(output));
    args.push(String::from_str("--pdf-engine=pdflatex"));
    assert(args@.map_values(|a: String| a@) =~= pandoc_arguments_spec(input@, output@));
    args
}

impl ConversionError {
    /// The message this failure reports (see `error_message_spec`).
    pub fn message(&self) -> (m: String)
        ensures
            m@ == error_message_spec(*self),
    {
        match self {
            ConversionError::InputNotFound(path) => {
                let mut m = String::from_str("Input file not found: ");
                m.append(path.as_str());
                m
            },
            ConversionError::NoTempDir => String::from_str("Temporary directory not available"),
            ConversionError::InvalidFileName => String::from_str("Invalid filename"),
            ConversionError::PandocNotRun => String::from_str(
                "Failed to execute Pandoc. Ensure Pandoc is installed and in your system PATH. Download from https://pandoc.org/installing.html",
            ),
            ConversionError::PandocFailed { stderr, stdout } => {
                let mut m = String::from_str("Pandoc conversion failed.\nStderr: ");
                m.append(stderr.as_str());
                m.append("\nStdout: ");
                m.append(stdout.as_str());
                m
            },
            ConversionError::OutputMissing(path) => {
                let mut m = String::from_str(
                    "Conversion appeared to succeed but PDF file not found at: ",
                );
                m.append(path.as_str());
                m
            },
        }
    }
}

} // verus!
