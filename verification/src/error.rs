use vstd::prelude::*;

verus! {

/// Why a container operation or a build job failed.
#[derive(Debug)]
pub enum BuildError {
    /// A request to the container engine failed; carries the engine's words.
    Engine(String),
    /// A stream chunk's bytes were not valid text where text was expected.
    Decode,
    /// An in-progress command execution observed the cancellation signal
    /// cleared and stopped before the command completed.
    Cancelled,
    /// A build step failed, or the engine reported an error chunk while
    /// building the image.
    Step(String),
    /// The image build stream ended before the image digest was received.
    MissingDigest,
}

} // verus!
