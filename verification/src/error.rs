//! The failures the network reports.

use vstd::prelude::*;

verus! {

/// Why a call on a layer or a network was refused.
#[derive(Debug, Clone, Copy, PartialEq, Eq)]
pub enum NetworkError {
    /// Sizes or shapes do not fit together: parts of a network, an input or
    /// target vector, or the two halves of a training set.
    Configuration,
    /// A mean over no elements was asked for: the loss of an empty output.
    ArithmeticDegenerate,
    /// A document does not describe a network: it names an activation that
    /// does not exist, or its parts do not fit together.
    Serialization,
}

} // verus!
