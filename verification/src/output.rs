use vstd::prelude::*;

verus! {

/// What one container operation produced on its two attached streams:
/// ordered stdout items and ordered stderr items. Interactive command
/// execution collects text lines; log retrieval collects raw bytes.
/// Order is preserved within each side, but no order is guaranteed
/// between the two sides: the engine multiplexes them independently.
#[derive(Debug)]
pub struct Output<T> {
    pub stdout: Vec<T>,
    pub stderr: Vec<T>,
}

impl<T> Output<T> {
    /// An output with both sides empty.
    pub fn new() -> (out: Output<T>)
        ensures
            out.stdout@ == Seq::<T>::empty(),
            out.stderr@ == Seq::<T>::empty(),
    {
        Output { stdout: Vec::new(), stderr: Vec::new() }
    }
}

impl<T> Default for Output<T> {
    fn default() -> (out: Self)
        ensures
            out.stdout@ == Seq::<T>::empty(),
            out.stderr@ == Seq::<T>::empty(),
    {
        Output::new()
    }
}

} // verus!
