//! A contract state that holds nothing.

use vstd::prelude::*;

verus! {

/// Stand-in for the state of a contract where the type of a state is asked
/// for and no state is ever read.
#[derive(Copy, Clone, Debug, Hash, PartialEq, Eq, Structural, Default)]
pub struct Dumb;

} // verus!
