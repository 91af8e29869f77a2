use vstd::prelude::*;

verus! {

/// Which way a transfer goes.
#[derive(Clone, Copy, Debug, PartialEq, Eq, Structural)]
pub enum Mode {
    Compress,
    Decompress,
}

/// The reasons a transfer can fail.
#[derive(Clone, Copy, Debug, PartialEq, Eq, Structural)]
pub enum TransferError {
    /// The source or the target path is empty.
    PathMissing,
    /// The source could not be opened or the target could not be created.
    OpenFailure,
    /// Reading, encoding or writing failed part way through.
    CopyFailure,
    /// The input to decompression is not a valid gzip stream.
    CorruptStream,
    /// The compressed output could not be flushed at the end.
    FinalizeFailure,
}

/// What the caller asks for: a source, a target and a direction.
#[derive(Debug)]
pub struct TransferRequest {
    pub source_path: String,
    pub target_path: String,
    pub mode: Mode,
}

impl TransferRequest {
    pub fn new(source_path: String, target_path: String, mode: Mode) -> (r: Self)
        ensures
            r.source_path@ == source_path@,
            r.target_path@ == target_path@,
            r.mode == mode,
    {
        TransferRequest { source_path, target_path, mode }
    }
}

} // verus!
