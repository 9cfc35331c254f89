//! Properties of inference, training and saving that follow from their
//! definitions.

use crate::activation::{tag_of, tagged, Activation};
use crate::document::{loaded, saved};
use crate::error::NetworkError;
use crate::network::{Network, NetworkModel};
use crate::scalar::{exact, Scalar};
use vstd::prelude::*;

verus! {

/// The output of a well-formed network, for an input of the length it
/// takes, has `output_size` elements.
pub proof fn forward_has_output_size<T: Scalar>(net: NetworkModel<T>, input: Seq<T>)
    requires
        net.well_formed(),
        input.len() == net.input_size,
    ensures
        net.forward(input).len() == net.output_size,
{
}

/// Training is deterministic: for an exact scalar type, two training steps
/// that start from networks with the same parameters, on the same sample
/// and with the same learning rate, end with the same result and with
/// networks that have the same parameters.
pub proof fn train_is_deterministic<T: Scalar>(
    first: Network<T>,
    second: Network<T>,
    input: Seq<T>,
    target: Seq<T>,
    lr: T,
    first_after: Network<T>,
    first_result: Result<T, NetworkError>,
    second_after: Network<T>,
    second_result: Result<T, NetworkError>,
)
    requires
        exact::<T>(),
        first@ == second@,
        Network::train_outcome(first, input, target, lr, first_after, first_result),
        Network::train_outcome(second, input, target, lr, second_after, second_result),
    ensures
        first_result == second_result,
        first_after@ == second_after@,
{
}

/// Training for no epochs gives no losses and leaves the network as it is.
pub proof fn fit_without_epochs_is_identity<T: Scalar>(
    net: NetworkModel<T>,
    inputs: Seq<Seq<T>>,
    targets: Seq<Seq<T>>,
    lr: T,
)
    ensures
        net.fitted(inputs, targets, 0, lr) == (net, Seq::<T>::empty()),
{
}

/// The name of an activation stands for that activation and no other.
pub proof fn tag_names_its_activation(act: Activation)
    ensures
        tagged(tag_of(act)) == Some(act),
{
    reveal_strlit("Sigmoid");
    reveal_strlit("ReLU");
    reveal_strlit("Tanh");
    assert("Sigmoid"@.len() == 7 && "ReLU"@.len() == 4 && "Tanh"@.len() == 4);
    assert("ReLU"@[0] == 'R' && "Tanh"@[0] == 'T');
}

/// A network that is saved and read back is the same network, and so gives
/// the same output for every input. A network whose parts do not fit
/// together is saved to a document that cannot be read back.
pub proof fn saved_network_loads_back<T: Scalar>(net: NetworkModel<T>, input: Seq<T>)
    ensures
        net.well_formed() ==> loaded(saved(net)) == Some(net),
        net.well_formed() ==> loaded(saved(net)).unwrap().forward(input) == net.forward(input),
        !net.well_formed() ==> loaded(saved(net)) is None,
{
    let doc = saved(net);
    assert forall|i: int| 0 <= i < doc.hidden_activations.len() implies tagged(
        #[trigger] doc.hidden_activations[i],
    ) == Some(net.hidden_activations[i]) by {
        tag_names_its_activation(net.hidden_activations[i]);
    }
    tag_names_its_activation(net.output_activation);
    assert(doc.network().hidden_activations =~= net.hidden_activations);
    assert(doc.network() == net);
}

} // verus!
