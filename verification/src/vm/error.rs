//! What can go wrong with a virtual machine.

use vstd::prelude::*;
use vstd::std_specs::convert::FromSpecImpl;
use vstd::string::to_string_from_display_ensures;
use crate::text::{concat2, decimal, decimal_string, digit, digit_char};

verus! {

/// The type `std::io::Error` of the standard library, the error of an
/// operation of the operating system. Nothing is assumed of what it
/// holds: a value of it is only carried.
#[verifier::external_type_specification]
#[verifier::external_body]
pub struct ExIoError(std::io::Error);

/// An error of a virtual machine.
#[derive(Debug)]
pub enum VMError {
    /// The image was not found at this path.
    ImageNotFound(String),
    StartFailed(String),
    StopFailed(String),
    /// The sandbox did not become healthy within this many milliseconds.
    HealthTimeout(u64),
    MountFailed(String),
    UnsupportedPlatform(String),
    /// The operating system refused an operation.
    Io(std::io::Error),
}

/// A `VMError` as a plain value.
pub enum VMErrorView {
    ImageNotFound(Seq<char>),
    StartFailed(Seq<char>),
    StopFailed(Seq<char>),
    HealthTimeout(u64),
    MountFailed(Seq<char>),
    UnsupportedPlatform(Seq<char>),
    Io(std::io::Error),
}

impl View for VMError {
    type V = VMErrorView;

    open spec fn view(&self) -> VMErrorView {
        match self {
            VMError::ImageNotFound(path) => VMErrorView::ImageNotFound(path@),
            VMError::StartFailed(msg) => VMErrorView::StartFailed(msg@),
            VMError::StopFailed(msg) => VMErrorView::StopFailed(msg@),
            VMError::HealthTimeout(millis) => VMErrorView::HealthTimeout(*millis),
            VMError::MountFailed(msg) => VMErrorView::MountFailed(msg@),
            VMError::UnsupportedPlatform(platform) => VMErrorView::UnsupportedPlatform(platform@),
            VMError::Io(err) => VMErrorView::Io(*err),
        }
    }
}

/// The digits after the decimal point of a time of `millis` thousandths
/// of a second, with the point before them: none for a whole second,
/// else up to three without zeros at the end.
pub open spec fn fraction_text(millis: nat) -> Seq<char> {
    if millis % 1000 == 0 {
        Seq::empty()
    } else if millis % 10 != 0 {
        seq!['.', digit(millis / 100 % 10), digit(millis / 10 % 10), digit(millis % 10)]
    } else if millis % 100 != 0 {
        seq!['.', digit(millis / 100 % 10), digit(millis / 10 % 10)]
    } else {
        seq!['.', digit(millis / 100 % 10)]
    }
}

/// A time span of `millis` milliseconds in words: in milliseconds
/// below a second, else in seconds with the fraction that is needed.
pub open spec fn duration_text(millis: nat) -> Seq<char> {
    if millis == 0 {
        "0ns"@
    } else if millis < 1000 {
        decimal(millis) + "ms"@
    } else {
        decimal(millis / 1000) + fraction_text(millis) + "s"@
    }
}

/// Writes a time span of `millis` milliseconds in words.
pub fn duration_string(millis: u64) -> (out: String)
    ensures
        out@ == duration_text(millis as nat),
{
    if millis == 0 {
        return "0ns".to_owned();
    }
    if millis < 1000 {
        let n = decimal_string(millis);
        return concat2(n.as_str(), "ms");
    }
    let mut out = decimal_string(millis / 1000);
    let ghost whole = out@;
    if millis % 1000 != 0 {
        out.push('.');
        out.push(digit_char(millis / 100 % 10));
        if millis % 100 != 0 {
            out.push(digit_char(millis / 10 % 10));
            if millis % 10 != 0 {
                out.push(digit_char(millis % 10));
            }
        }
    }
    assert(out@ =~= whole + fraction_text(millis as nat));
    out.append("s");
    out
}

/// The text of an error, without the text of an error of the operating
/// system.
pub open spec fn error_text(e: VMError) -> Seq<char> {
    match e {
        VMError::ImageNotFound(path) => "VM image not found: "@ + path@,
        VMError::StartFailed(msg) => "Failed to start VM: "@ + msg@,
        VMError::StopFailed(msg) => "Failed to stop VM: "@ + msg@,
        VMError::HealthTimeout(millis) => "VM health check failed after "@ + duration_text(
            millis as nat,
        ),
        VMError::MountFailed(msg) => "Shared filesystem mount failed: "@ + msg@,
        VMError::UnsupportedPlatform(platform) => "Platform not supported: "@ + platform@,
        VMError::Io(_) => "IO error: "@,
    }
}

impl VMError {
    /// The error in words. For an error of the operating system the
    /// words of that error follow `IO error: `.
    pub fn message(&self) -> (out: String)
        ensures
            !(self is Io) ==> out@ == error_text(*self),
            self matches VMError::Io(err) ==> exists|text: String|
                to_string_from_display_ensures::<std::io::Error>(&err, text) && out@
                    == error_text(*self) + text@,
    {
        match self {
            VMError::ImageNotFound(path) => concat2("VM image not found: ", path.as_str()),
            VMError::StartFailed(msg) => concat2("Failed to start VM: ", msg.as_str()),
            VMError::StopFailed(msg) => concat2("Failed to stop VM: ", msg.as_str()),
            VMError::HealthTimeout(millis) => {
                let span = duration_string(*millis);
                concat2("VM health check failed after ", span.as_str())
            },
            VMError::MountFailed(msg) => concat2("Shared filesystem mount failed: ", msg.as_str()),
            VMError::UnsupportedPlatform(platform) => concat2(
                "Platform not supported: ",
                platform.as_str(),
            ),
            VMError::Io(err) => {
                let text = err.to_string();
                concat2("IO error: ", text.as_str())
            },
        }
    }
}

impl From<std::io::Error> for VMError {
    fn from(err: std::io::Error) -> (out: VMError) {
        VMError::Io(err)
    }
}

impl FromSpecImpl<std::io::Error> for VMError {
    open spec fn obeys_from_spec() -> bool {
        true
    }

    open spec fn from_spec(err: std::io::Error) -> VMError {
        VMError::Io(err)
    }
}

} // verus!
