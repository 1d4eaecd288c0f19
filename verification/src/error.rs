//! The one kind of error that callers see.

use vstd::prelude::*;

verus! {

/// An error in communicating with a chain: the error of whatever was asked,
/// passed on as it came.
#[derive(Debug)]
pub struct ChainCommunicationError<E>(pub E);

} // verus!
