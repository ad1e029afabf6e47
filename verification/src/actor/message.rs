use vstd::prelude::*;

verus! {

/// A message: the argument of a call. Its `Result` is what the handler of the
/// message answers with.
pub trait Message: 'static + Send {
    type Result: 'static + Send;
}

} // verus!
