//! The network: hidden layers with their activations, and an output layer.

use crate::activation::{activate_vec, activated_seq, Activation};
use crate::error::NetworkError;
use crate::layer::{copy_layers, duplicate, layer_at, layer_size, Layer, LayerModel};
use crate::scalar::{count, difference, exact, product, quotient, sum, zero, Scalar};
use vstd::prelude::*;

verus! {

/// A feedforward network.
///
/// Hidden layer `i` has `hidden_sizes[i]` units and is followed by
/// `hidden_activations[i]`; the output layer has `output_size` units and is
/// followed by `output_activation`.
#[derive(Debug)]
pub struct Network<T> {
    pub input_size: usize,
    pub hidden_sizes: Vec<usize>,
    pub output_size: usize,
    pub hidden_layers: Vec<Layer<T>>,
    pub hidden_activations: Vec<Activation>,
    pub output: Layer<T>,
    pub output_activation: Activation,
}

/// The mathematical content of a [`Network`].
pub struct NetworkModel<T> {
    pub input_size: nat,
    pub hidden_sizes: Seq<nat>,
    pub output_size: nat,
    pub hidden_layers: Seq<LayerModel<T>>,
    pub hidden_activations: Seq<Activation>,
    pub output: LayerModel<T>,
    pub output_activation: Activation,
}

/// A list of sizes as natural numbers.
pub open spec fn sizes(v: Seq<usize>) -> Seq<nat> {
    Seq::new(v.len(), |i: int| v[i] as nat)
}

impl<T> View for Network<T> {
    type V = NetworkModel<T>;

    open spec fn view(&self) -> NetworkModel<T> {
        NetworkModel {
            input_size: self.input_size as nat,
            hidden_sizes: sizes(self.hidden_sizes@),
            output_size: self.output_size as nat,
            hidden_layers: Seq::new(
                self.hidden_layers.len() as nat,
                |i: int| self.hidden_layers[i]@,
            ),
            hidden_activations: self.hidden_activations@,
            output: self.output@,
            output_activation: self.output_activation,
        }
    }
}

impl<T: Copy> Clone for Network<T> {
    /// A network with the same sizes, activations and parameters.
    fn clone(&self) -> (r: Self)
        ensures
            r@ == self@,
    {
        let r = Network {
            input_size: self.input_size,
            hidden_sizes: duplicate(&self.hidden_sizes),
            output_size: self.output_size,
            hidden_layers: copy_layers(&self.hidden_layers),
            hidden_activations: duplicate(&self.hidden_activations),
            output: self.output.clone(),
            output_activation: self.output_activation,
        };
        assert(r@.hidden_layers =~= self@.hidden_layers);
        r
    }
}

/// The length of the vector that enters layer `k` of a network with these
/// sizes, counting the output layer as the last one; for the index after
/// the last layer, the length of the network's output.
pub open spec fn width_at(
    input_size: nat,
    hidden_sizes: Seq<nat>,
    output_size: nat,
    k: int,
) -> nat {
    if k <= 0 {
        input_size
    } else if k <= hidden_sizes.len() {
        hidden_sizes[k - 1]
    } else {
        output_size
    }
}

/// How many parameters the first `k` layers of a network with these sizes
/// have together.
pub open spec fn size_before(
    input_size: nat,
    hidden_sizes: Seq<nat>,
    output_size: nat,
    k: nat,
) -> nat
    decreases k,
{
    if k == 0 {
        0
    } else {
        size_before(input_size, hidden_sizes, output_size, (k - 1) as nat) + layer_size(
            width_at(input_size, hidden_sizes, output_size, k - 1),
            width_at(input_size, hidden_sizes, output_size, k as int),
        )
    }
}

/// How many parameters a network with these sizes has.
pub open spec fn network_size(input_size: nat, hidden_sizes: Seq<nat>, output_size: nat) -> nat {
    size_before(input_size, hidden_sizes, output_size, hidden_sizes.len() + 1)
}

/// The network that `values` spells out: the parameters of the hidden
/// layers in order, then those of the output layer, each layer laid out as
/// [`layer_at`] says.
pub open spec fn assembled<T>(
    input_size: nat,
    hidden_sizes: Seq<nat>,
    output_size: nat,
    hidden_activations: Seq<Activation>,
    output_activation: Activation,
    values: Seq<T>,
) -> NetworkModel<T> {
    NetworkModel {
        input_size,
        hidden_sizes,
        output_size,
        hidden_layers: Seq::new(
            hidden_sizes.len(),
            |k: int|
                layer_at(
                    values,
                    size_before(input_size, hidden_sizes, output_size, k as nat) as int,
                    width_at(input_size, hidden_sizes, output_size, k),
                    width_at(input_size, hidden_sizes, output_size, k + 1),
                ),
        ),
        hidden_activations,
        output: layer_at(
            values,
            size_before(input_size, hidden_sizes, output_size, hidden_sizes.len()) as int,
            width_at(input_size, hidden_sizes, output_size, hidden_sizes.len() as int),
            output_size,
        ),
        output_activation,
    }
}

/// The sum of the first `n` squared differences between `output` and
/// `target`, added up from index 0, starting from zero.
pub open spec fn squared_error_prefix<T: Scalar>(output: Seq<T>, target: Seq<T>, n: nat) -> T
    decreases n,
{
    if n == 0 {
        zero()
    } else {
        let d = difference(output[n - 1], target[n - 1]);
        sum(squared_error_prefix(output, target, (n - 1) as nat), product(d, d))
    }
}

/// The mean over the output dimensions of the squared difference between
/// `output` and `target`.
pub open spec fn mean_squared_error<T: Scalar>(output: Seq<T>, target: Seq<T>) -> T {
    quotient(
        squared_error_prefix(output, target, output.len()),
        count(output.len() as usize),
    )
}

impl<T: Scalar> NetworkModel<T> {
    /// The number of layers, the output layer included.
    pub open spec fn depth(self) -> nat {
        self.hidden_layers.len() + 1
    }

    /// Layer `k`: a hidden layer, or the output layer after the last of
    /// them.
    pub open spec fn layer(self, k: int) -> LayerModel<T> {
        if 0 <= k < self.hidden_layers.len() {
            self.hidden_layers[k]
        } else {
            self.output
        }
    }

    /// The activation that follows layer `k`.
    pub open spec fn activation(self, k: int) -> Activation {
        if 0 <= k < self.hidden_activations.len() {
            self.hidden_activations[k]
        } else {
            self.output_activation
        }
    }

    /// The length of the vector that enters layer `k`; for `k == depth()`,
    /// the length of the network's output.
    pub open spec fn width(self, k: int) -> nat {
        width_at(self.input_size, self.hidden_sizes, self.output_size, k)
    }

    /// The parts fit together: there is one layer and one activation per
    /// hidden size, every layer takes what the layer before it gives (the
    /// first one the network's input), and gives as many values as its size
    /// says.
    pub open spec fn well_formed(self) -> bool {
        &&& self.hidden_layers.len() == self.hidden_sizes.len()
        &&& self.hidden_activations.len() == self.hidden_sizes.len()
        &&& forall|k: int|
            0 <= k < self.depth() ==> (#[trigger] self.layer(k)).accepts(self.width(k))
                && self.layer(k).rows() == self.width(k + 1)
    }

    /// Two networks of the same sizes and activations.
    pub open spec fn alike(self, other: Self) -> bool {
        &&& self.input_size == other.input_size
        &&& self.hidden_sizes == other.hidden_sizes
        &&& self.output_size == other.output_size
        &&& self.hidden_activations == other.hidden_activations
        &&& self.output_activation == other.output_activation
    }

    /// The vector that enters layer `k` when `input` enters the network:
    /// `input` itself for `k == 0`, else the activated output of layer
    /// `k - 1`.
    pub open spec fn signal(self, input: Seq<T>, k: nat) -> Seq<T>
        decreases k,
    {
        if k == 0 {
            input
        } else {
            activated_seq(
                self.layer(k - 1).output(self.signal(input, (k - 1) as nat)),
                self.activation(k - 1),
            )
        }
    }

    /// The raw output of layer `k`, before its activation.
    pub open spec fn raw(self, input: Seq<T>, k: nat) -> Seq<T> {
        self.layer(k as int).output(self.signal(input, k))
    }

    /// The network's output for `input`.
    pub open spec fn forward(self, input: Seq<T>) -> Seq<T> {
        self.signal(input, self.depth())
    }
}

/// The parameter ranges of the layers of a network never shrink.
proof fn lemma_size_before_grows(
    input_size: nat,
    hidden_sizes: Seq<nat>,
    output_size: nat,
    j: nat,
    k: nat,
)
    requires
        j <= k,
    ensures
        size_before(input_size, hidden_sizes, output_size, j) <= size_before(
            input_size,
            hidden_sizes,
            output_size,
            k,
        ),
    decreases k,
{
    if j < k {
        lemma_size_before_grows(input_size, hidden_sizes, output_size, j, (k - 1) as nat);
    }
}

impl<T: Scalar> Network<T> {
    /// How many parameters a network with these sizes has, or `None` where
    /// the number does not fit in a `usize`.
    pub fn parameter_count(
        input_size: usize,
        hidden_sizes: &Vec<usize>,
        output_size: usize,
    ) -> (r: Option<usize>)
        ensures
            r is Some <==> network_size(
                input_size as nat,
                sizes(hidden_sizes@),
                output_size as nat,
            ) <= usize::MAX,
            r matches Some(n) ==> n == network_size(
                input_size as nat,
                sizes(hidden_sizes@),
                output_size as nat,
            ),
    {
        let ghost hs = sizes(hidden_sizes@);
        let mut total: usize = 0;
        let mut prev: usize = input_size;
        let mut k: usize = 0;
        while k < hidden_sizes.len()
            invariant
                k <= hidden_sizes.len(),
                hs == sizes(hidden_sizes@),
                prev == width_at(input_size as nat, hs, output_size as nat, k as int),
                total == size_before(input_size as nat, hs, output_size as nat, k as nat),
            decreases hidden_sizes.len() - k,
        {
            let size = hidden_sizes[k];
            proof {
                lemma_size_before_grows(
                    input_size as nat,
                    hs,
                    output_size as nat,
                    (k + 1) as nat,
                    hs.len() + 1,
                );
            }
            match Layer::<T>::parameter_count(prev, size) {
                Some(n) => match total.checked_add(n) {
                    Some(t) => {
                        total = t;
                    },
                    None => {
                        return None;
                    },
                },
                None => {
                    return None;
                },
            }
            prev = size;
            k += 1;
        }
        match Layer::<T>::parameter_count(prev, output_size) {
            Some(n) => total.checked_add(n),
            None => None,
        }
    }

    /// Builds a network of the given sizes and activations from its
    /// parameters in order: those of the hidden layers, first to last, then
    /// those of the output layer, each layer as [`Layer::new`] takes them.
    ///
    /// Fails with `Configuration` unless there is one activation per hidden
    /// size and `values` holds exactly as many parameters as the network
    /// has.
    pub fn new(
        input_size: usize,
        hidden_sizes: Vec<usize>,
        output_size: usize,
        hidden_activations: Vec<Activation>,
        output_activation: Activation,
        values: &Vec<T>,
    ) -> (r: Result<Self, NetworkError>)
        ensures
            r is Ok <==> hidden_sizes.len() == hidden_activations.len() && values.len()
                == network_size(input_size as nat, sizes(hidden_sizes@), output_size as nat),
            r matches Err(e) ==> e == NetworkError::Configuration,
            r matches Ok(net) ==> net@.well_formed() && net@ == assembled(
                input_size as nat,
                sizes(hidden_sizes@),
                output_size as nat,
                hidden_activations@,
                output_activation,
                values@,
            ),
    {
        if hidden_sizes.len() != hidden_activations.len() {
            return Err(NetworkError::Configuration);
        }
        let ghost hs = sizes(hidden_sizes@);
        let ghost model = assembled(
            input_size as nat,
            hs,
            output_size as nat,
            hidden_activations@,
            output_activation,
            values@,
        );
        let mut layers: Vec<Layer<T>> = Vec::new();
        let mut pos: usize = 0;
        let mut prev: usize = input_size;
        let mut k: usize = 0;
        while k < hidden_sizes.len()
            invariant
                k <= hidden_sizes.len(),
                hs == sizes(hidden_sizes@),
                model == assembled(
                    input_size as nat,
                    hs,
                    output_size as nat,
                    hidden_activations@,
                    output_activation,
                    values@,
                ),
                prev == width_at(input_size as nat, hs, output_size as nat, k as int),
                pos == size_before(input_size as nat, hs, output_size as nat, k as nat),
                pos <= values.len(),
                layers.len() == k,
                forall|a: int| 0 <= a < k ==> (#[trigger] layers[a])@ == model.hidden_layers[a],
            decreases hidden_sizes.len() - k,
        {
            let size = hidden_sizes[k];
            proof {
                lemma_size_before_grows(
                    input_size as nat,
                    hs,
                    output_size as nat,
                    (k + 1) as nat,
                    hs.len() + 1,
                );
            }
            match Layer::<T>::parameter_count(prev, size) {
                Some(n) => {
                    if n > values.len() - pos {
                        return Err(NetworkError::Configuration);
                    }
                    layers.push(Layer::read(values, pos, prev, size));
                    pos += n;
                },
                None => {
                    return Err(NetworkError::Configuration);
                },
            }
            prev = size;
            k += 1;
        }
        let output = match Layer::<T>::parameter_count(prev, output_size) {
            Some(n) => {
                if n != values.len() - pos {
                    return Err(NetworkError::Configuration);
                }
                Layer::read(values, pos, prev, output_size)
            },
            None => {
                return Err(NetworkError::Configuration);
            },
        };
        let net = Network {
            input_size,
            hidden_sizes,
            output_size,
            hidden_layers: layers,
            hidden_activations,
            output,
            output_activation,
        };
        proof {
            assert(net@.hidden_layers =~= model.hidden_layers);
            assert forall|a: int| 0 <= a < net@.depth() implies (#[trigger] net@.layer(a)).accepts(
                net@.width(a),
            ) && net@.layer(a).rows() == net@.width(a + 1) by {
                let l = net@.layer(a);
                assert(forall|i: int| 0 <= i < l.weights.len() ==> (#[trigger] l.weights[i]).len()
                    == net@.width(a));
            }
        }
        Ok(net)
    }

    /// Whether the parts of the network fit together.
    pub fn is_well_formed(&self) -> (b: bool)
        ensures
            b == self@.well_formed(),
    {
        let hidden = self.hidden_sizes.len();
        if self.hidden_layers.len() != hidden || self.hidden_activations.len() != hidden {
            return false;
        }
        let mut prev: usize = self.input_size;
        let mut k: usize = 0;
        while k < hidden
            invariant
                k <= hidden,
                hidden == self.hidden_sizes.len(),
                self.hidden_layers.len() == hidden,
                self.hidden_activations.len() == hidden,
                prev == self@.width(k as int),
                forall|a: int|
                    0 <= a < k ==> (#[trigger] self@.layer(a)).accepts(self@.width(a))
                        && self@.layer(a).rows() == self@.width(a + 1),
            decreases hidden - k,
        {
            let layer = &self.hidden_layers[k];
            assert(self@.layer(k as int) == layer@);
            if !layer.accepts(prev) || layer.weights.len() != self.hidden_sizes[k] {
                return false;
            }
            prev = self.hidden_sizes[k];
            k += 1;
        }
        assert(self@.layer(hidden as int) == self.output@);
        self.output.accepts(prev) && self.output.weights.len() == self.output_size
    }

    /// The network's output for `input`: the input goes through each hidden
    /// layer and its activation in order, then through the output layer and
    /// its activation.
    ///
    /// Fails with `Configuration` unless the network is well formed and
    /// `input` has `input_size` elements.
    pub fn forward(&self, input: &Vec<T>) -> (r: Result<Vec<T>, NetworkError>)
        ensures
            r is Ok <==> self@.well_formed() && input@.len() == self@.input_size,
            r matches Err(e) ==> e == NetworkError::Configuration,
            r matches Ok(out) ==> out@.len() == self@.output_size && (exact::<T>() ==> out@
                == self@.forward(input@)),
    {
        if !self.is_well_formed() || input.len() != self.input_size {
            return Err(NetworkError::Configuration);
        }
        let hidden = self.hidden_layers.len();
        let mut cur: Vec<T> = duplicate(input);
        let mut k: usize = 0;
        while k < hidden
            invariant
                k <= hidden,
                hidden == self.hidden_layers.len(),
                self@.well_formed(),
                cur@.len() == self@.width(k as int),
                exact::<T>() ==> cur@ == self@.signal(input@, k as nat),
            decreases hidden - k,
        {
            assert(self@.layer(k as int) == self.hidden_layers[k as int]@);
            let z = self.hidden_layers[k].output(&cur);
            cur = activate_vec(&z, &self.hidden_activations[k]);
            k += 1;
        }
        assert(self@.layer(hidden as int) == self.output@);
        let z = self.output.output(&cur);
        Ok(activate_vec(&z, &self.output_activation))
    }

    /// The network's output for `input`: another name for [`Network::forward`].
    pub fn predict(&self, input: &Vec<T>) -> (r: Result<Vec<T>, NetworkError>)
        ensures
            r is Ok <==> self@.well_formed() && input@.len() == self@.input_size,
            r matches Err(e) ==> e == NetworkError::Configuration,
            r matches Ok(out) ==> out@.len() == self@.output_size && (exact::<T>() ==> out@
                == self@.forward(input@)),
    {
        self.forward(input)
    }

    /// The mean squared error between `output` and `target`.
    ///
    /// Fails with `ArithmeticDegenerate` where `output` is empty, whatever
    /// the target holds, and with `Configuration` where `output` is not
    /// empty and `target` has another length.
    pub fn mse_loss(output: &Vec<T>, target: &Vec<T>) -> (r: Result<T, NetworkError>)
        ensures
            r is Ok <==> output@.len() > 0 && output@.len() == target@.len(),
            r matches Err(e) ==> e == (if output@.len() == 0 {
                NetworkError::ArithmeticDegenerate
            } else {
                NetworkError::Configuration
            }),
            r matches Ok(loss) ==> (exact::<T>() ==> loss == mean_squared_error(
                output@,
                target@,
            )),
    {
        if output.len() == 0 {
            return Err(NetworkError::ArithmeticDegenerate);
        }
        if output.len() != target.len() {
            return Err(NetworkError::Configuration);
        }
        Ok(Self::mean_squared(output, target))
    }

    /// The mean squared error between two vectors of one length.
    pub(crate) fn mean_squared(output: &Vec<T>, target: &Vec<T>) -> (loss: T)
        requires
            output@.len() == target@.len(),
        ensures
            exact::<T>() ==> loss == mean_squared_error(output@, target@),
    {
        let mut acc = T::zero();
        let mut i: usize = 0;
        while i < output.len()
            invariant
                i <= output.len(),
                output.len() == target.len(),
                exact::<T>() ==> acc == squared_error_prefix(output@, target@, i as nat),
            decreases output.len() - i,
        {
            let d = output[i].minus(target[i]);
            acc = acc.plus(d.times(d));
            i += 1;
        }
        acc.over(T::from_count(output.len()))
    }
}

} // verus!
