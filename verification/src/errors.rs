//! The failure taxonomy of a run: each stage reports one of these errors and
//! the caller stops at the first one.

use vstd::prelude::*;

verus! {

/// Everything that can go wrong in one run of the tool.
#[derive(Debug, PartialEq, Eq)]
pub enum Error {
    /// The driver's attribute directory is absent or cannot be listed; the
    /// driver is not installed.
    MissingAttributeDirectory,
    /// The attribute directory is there but the kernel module is not loaded.
    MissingKernelModule,
    /// A numeric parameter is outside its accepted bound; carries the text of
    /// the accepted range.
    InvalidRange(String),
    /// The color argument is not a six-digit hex string; carries the rejected
    /// input.
    InvalidColorFormat(String),
    /// An attribute write returned a non-zero exit status; carries the exact
    /// command text that was attempted.
    ShellExecutionFailed(String),
}

/// The diagnostic text for an error, as the binary writes it to the error
/// stream.
pub open spec fn message_text(e: Error) -> Seq<char> {
    match e {
        Error::MissingAttributeDirectory => "the driver attribute directory is missing or not listable"@,
        Error::MissingKernelModule => "the kernel module is not loaded"@,
        Error::InvalidRange(t) => "a parameter is outside the accepted range '"@ + t@ + "'"@,
        Error::InvalidColorFormat(t) => "the color must be an RGB hex string like 'FF0000' - input: '"@
            + t@ + "'"@,
        Error::ShellExecutionFailed(t) => "the shell write failed for the command: '"@ + t@ + "'"@,
    }
}

impl Error {
    /// Renders the human-readable diagnostic for this error.
    pub fn message(&self) -> (m: String)
        ensures
            m@ == message_text(*self),
    {
        match self {
            Error::MissingAttributeDirectory => String::from_str(
                "the driver attribute directory is missing or not listable",
            ),
            Error::MissingKernelModule => String::from_str("the kernel module is not loaded"),
            Error::InvalidRange(t) => {
                let mut m = String::from_str("a parameter is outside the accepted range '");
                m.append(t.as_str());
                m.append("'");
                proof {
                    assert(m@ =~= message_text(*self));
                }
                m
            },
            Error::InvalidColorFormat(t) => {
                let mut m = String::from_str(
                    "the color must be an RGB hex string like 'FF0000' - input: '",
                );
                m.append(t.as_str());
                m.append("'");
                proof {
                    assert(m@ =~= message_text(*self));
                }
                m
            },
            Error::ShellExecutionFailed(t) => {
                let mut m = String::from_str("the shell write failed for the command: '");
                m.append(t.as_str());
                m.append("'");
                proof {
                    assert(m@ =~= message_text(*self));
                }
                m
            },
        }
    }
}

} // verus!
