use vstd::prelude::*;
use vstd::string::*;
use crate::request::{Mode, TransferError};

verus! {

/// How a transfer ended: either it succeeded, after the given time, or it
/// failed for one reason. Never both.
#[derive(Clone, Copy, Debug, PartialEq, Eq, Structural)]
pub enum TransferOutcome {
    Succeeded { mode: Mode, elapsed_nanos: u64 },
    Failed { mode: Mode, error: TransferError },
}

/// The text that `Debug` prints for a `Duration` of this many nanoseconds.
pub uninterp spec fn duration_text_of(nanos: u64) -> Seq<char>;

/// Relies on the `Debug` impl of std::time::Duration (as `{:?}` prints it):
/// the text depends on the value alone.
#[verifier::external_body]
fn duration_text(nanos: u64) -> (r: String)
    ensures
        r@ == duration_text_of(nanos),
{
    format!("{:?}", std::time::Duration::from_nanos(nanos))
}

/// The status line shown for an outcome.
pub open spec fn message_of(o: TransferOutcome) -> Seq<char> {
    match o {
        TransferOutcome::Succeeded { mode: Mode::Compress, elapsed_nanos } =>
            "Compressed successfully in "@ + duration_text_of(elapsed_nanos),
        TransferOutcome::Succeeded { mode: Mode::Decompress, elapsed_nanos } =>
            "Decompressed successfully in "@ + duration_text_of(elapsed_nanos),
        TransferOutcome::Failed { mode, error } => failure_text(mode, error),
    }
}

/// The status line for one failure.
pub open spec fn failure_text(mode: Mode, error: TransferError) -> Seq<char> {
    match error {
        TransferError::PathMissing => "Please select both source and target paths."@,
        TransferError::OpenFailure => "Error opening files."@,
        TransferError::CopyFailure => match mode {
            Mode::Compress => "Error during compression."@,
            Mode::Decompress => "Error during decompression."@,
        },
        TransferError::CorruptStream => "Error during decompression: the input is not a valid gzip stream."@,
        TransferError::FinalizeFailure => "Error finishing the output file."@,
    }
}

impl TransferOutcome {
    pub fn is_success(&self) -> (r: bool)
        ensures
            r <==> self is Succeeded,
    {
        match self {
            TransferOutcome::Succeeded { .. } => true,
            TransferOutcome::Failed { .. } => false,
        }
    }

    /// The progress shown for an outcome, in percent: all or nothing.
    pub fn progress_percent(&self) -> (r: u8)
        ensures
            r == (if self is Succeeded { 100u8 } else { 0u8 }),
    {
        match self {
            TransferOutcome::Succeeded { .. } => 100,
            TransferOutcome::Failed { .. } => 0,
        }
    }

    /// The status line shown for this outcome.
    pub fn message(&self) -> (r: String)
        ensures
            r@ == message_of(*self),
    {
        match *self {
            TransferOutcome::Succeeded { mode, elapsed_nanos } => {
                let head = match mode {
                    Mode::Compress => String::from_str("Compressed successfully in "),
                    Mode::Decompress => String::from_str("Decompressed successfully in "),
                };
                let tail = duration_text(elapsed_nanos);
                head.concat(tail.as_str())
            },
            TransferOutcome::Failed { mode, error } => {
                let text = match error {
                    TransferError::PathMissing => "Please select both source and target paths.",
                    TransferError::OpenFailure => "Error opening files.",
                    TransferError::CopyFailure => match mode {
                        Mode::Compress => "Error during compression.",
                        Mode::Decompress => "Error during decompression.",
                    },
                    TransferError::CorruptStream => "Error during decompression: the input is not a valid gzip stream.",
                    TransferError::FinalizeFailure => "Error finishing the output file.",
                };
                String::from_str(text)
            },
        }
    }
}

} // verus!
