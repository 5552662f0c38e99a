use vstd::prelude::*;

verus! {

/// One chunk of a multiplexed container output stream. For a request
/// that attaches stdout and stderr the engine contract only ever yields
/// these two kinds, so the type is closed: any other wire value is an
/// internal invariant violation that the engine adapter must treat as a
/// fatal bug before it reaches this library.
#[derive(Debug)]
pub enum StreamChunk {
    StdOut(Vec<u8>),
    StdErr(Vec<u8>),
}

impl StreamChunk {
    /// The payload bytes, whichever side they belong to.
    pub open spec fn bytes(self) -> Seq<u8> {
        match self {
            StreamChunk::StdOut(b) => b@,
            StreamChunk::StdErr(b) => b@,
        }
    }
}

/// One structured progress event of an image build stream: a textual
/// update, an error report, or the final image digest.
#[derive(Debug)]
pub enum BuildProgress {
    Update(String),
    Error(String),
    Digest(String),
}

} // verus!
