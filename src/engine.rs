use vstd::prelude::*;
use crate::codec::{compress, decompress, gunzip_of, is_cut_stream, is_stream_of};
use crate::paths::{compressed_path, compressed_target, decompressed_path, decompressed_target};
use crate::request::{Mode, TransferError, TransferRequest};
use crate::status::TransferOutcome;

verus! {

/// The file a transfer writes, by mode.
pub open spec fn output_path_for(mode: Mode, target: Seq<char>) -> Seq<char> {
    match mode {
        Mode::Compress => compressed_path(target),
        Mode::Decompress => decompressed_path(target),
    }
}

/// Checks a request before any file is touched and names the output file.
/// Both paths must be non-empty.
pub fn prepare(req: &TransferRequest) -> (r: Result<String, TransferError>)
    ensures
        r is Err <==> req.source_path@.len() == 0 || req.target_path@.len() == 0,
        match r {
            Ok(p) => p@ == output_path_for(req.mode, req.target_path@),
            Err(e) => e == TransferError::PathMissing,
        },
{
    if req.source_path.as_str().is_empty() || req.target_path.as_str().is_empty() {
        return Err(TransferError::PathMissing);
    }
    match req.mode {
        Mode::Compress => Ok(compressed_target(req.target_path.as_str())),
        Mode::Decompress => Ok(decompressed_target(req.target_path.as_str())),
    }
}

/// Runs the codec over the whole content of the source, by mode.
pub fn transform(mode: Mode, input: &[u8]) -> (r: Result<Vec<u8>, TransferError>)
    ensures
        mode == Mode::Compress ==> (r matches Ok(v) && is_stream_of(v@, input@)),
        mode == Mode::Decompress ==> (r is Ok <==> gunzip_of(input@) is Some),
        mode == Mode::Decompress && is_cut_stream(input@) ==> r == Err::<Vec<u8>, TransferError>(
            TransferError::CorruptStream,
        ),
        mode == Mode::Decompress ==> match r {
            Ok(v) => gunzip_of(input@) == Some(v@),
            Err(e) => e == TransferError::CorruptStream,
        },
{
    match mode {
        Mode::Compress => compress(input),
        Mode::Decompress => decompress(input),
    }
}

/// What the caller is asked to do next.
#[derive(Debug)]
pub enum Action {
    /// Open `source_path` for reading and create `output_path`, then read
    /// the whole source.
    OpenFiles { source_path: String, output_path: String },
    /// Write these bytes to the output file, then flush it.
    WriteOutput { bytes: Vec<u8> },
    /// The transfer is over.
    Report { outcome: TransferOutcome },
}

/// What the caller saw while doing the last action.
#[derive(Debug)]
pub enum Event {
    /// Opening the source or creating the output failed.
    OpenFailed,
    /// The whole source was read.
    SourceRead { content: Vec<u8> },
    /// Reading the source failed part way through.
    ReadFailed,
    /// Writing the output failed.
    WriteFailed,
    /// Flushing the output at the end failed.
    FlushFailed,
    /// The output was written and flushed; the transfer took this long.
    Completed { elapsed_nanos: u64 },
}

pub open spec fn reports(a: Action, o: TransferOutcome) -> bool {
    a matches Action::Report { outcome } && outcome == o
}

/// The first step of a transfer: a request with an empty path is reported
/// at once, before any file is touched; otherwise the files are opened.
pub fn begin(req: &TransferRequest) -> (r: Action)
    ensures
        req.source_path@.len() == 0 || req.target_path@.len() == 0 ==> reports(
            r,
            TransferOutcome::Failed { mode: req.mode, error: TransferError::PathMissing },
        ),
        req.source_path@.len() > 0 && req.target_path@.len() > 0 ==> (r matches Action::OpenFiles {
            source_path,
            output_path,
        } && source_path@ == req.source_path@ && output_path@ == output_path_for(
            req.mode,
            req.target_path@,
        )),
{
    match prepare(req) {
        Ok(output_path) => Action::OpenFiles {
            source_path: req.source_path.clone(),
            output_path,
        },
        Err(error) => Action::Report { outcome: TransferOutcome::Failed { mode: req.mode, error } },
    }
}

/// Every later step of a transfer in `mode`: a failed file operation ends
/// it with the matching error (a failed final flush is a finalize failure
/// when compressing, a copy failure when decompressing); a source read in full goes through the codec
/// and on to the output, or ends with the codec's error; a completed write
/// ends it with success and the elapsed time.
pub fn advance(mode: Mode, event: Event) -> (r: Action)
    ensures
        event is OpenFailed ==> reports(
            r,
            TransferOutcome::Failed { mode, error: TransferError::OpenFailure },
        ),
        event is ReadFailed || event is WriteFailed ==> reports(
            r,
            TransferOutcome::Failed { mode, error: TransferError::CopyFailure },
        ),
        event is FlushFailed && mode == Mode::Compress ==> reports(
            r,
            TransferOutcome::Failed { mode, error: TransferError::FinalizeFailure },
        ),
        event is FlushFailed && mode == Mode::Decompress ==> reports(
            r,
            TransferOutcome::Failed { mode, error: TransferError::CopyFailure },
        ),
        event matches Event::Completed { elapsed_nanos } ==> reports(
            r,
            TransferOutcome::Succeeded { mode, elapsed_nanos },
        ),
        event matches Event::SourceRead { content } ==> (mode == Mode::Compress ==> (
        r matches Action::WriteOutput { bytes } && is_stream_of(bytes@, content@))),
        event matches Event::SourceRead { content } ==> (mode == Mode::Decompress ==> match r {
            Action::WriteOutput { bytes } => gunzip_of(content@) == Some(bytes@),
            Action::Report { outcome } => gunzip_of(content@) is None && outcome
                == TransferOutcome::Failed { mode, error: TransferError::CorruptStream },
            Action::OpenFiles { .. } => false,
        }),
        event matches Event::SourceRead { content } ==> (mode == Mode::Decompress && is_cut_stream(
            content@,
        ) ==> reports(
            r,
            TransferOutcome::Failed { mode, error: TransferError::CorruptStream },
        )),
{
    match event {
        Event::OpenFailed => Action::Report {
            outcome: TransferOutcome::Failed { mode, error: TransferError::OpenFailure },
        },
        Event::SourceRead { content } => match transform(mode, content.as_slice()) {
            Ok(bytes) => Action::WriteOutput { bytes },
            Err(error) => Action::Report { outcome: TransferOutcome::Failed { mode, error } },
        },
        Event::ReadFailed | Event::WriteFailed => Action::Report {
            outcome: TransferOutcome::Failed { mode, error: TransferError::CopyFailure },
        },
        Event::FlushFailed => {
            let error = match mode {
                Mode::Compress => TransferError::FinalizeFailure,
                Mode::Decompress => TransferError::CopyFailure,
            };
            Action::Report { outcome: TransferOutcome::Failed { mode, error } }
        },
        Event::Completed { elapsed_nanos } => Action::Report {
            outcome: TransferOutcome::Succeeded { mode, elapsed_nanos },
        },
    }
}

} // verus!
