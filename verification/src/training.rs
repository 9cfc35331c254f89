//! Training: one gradient step on a single sample, and epochs over a
//! training set.
//!
//! The step updates the layers from the output layer backwards, and the
//! error of a hidden layer is computed from the weights of the layer after
//! it as they stand at that moment, that is, after that layer's own update.
//! This differs from textbook backpropagation, which sends the error back
//! through the weights as they were before the step.

use crate::activation::{activate_derivative_vec, activate_vec, derivative_seq};
use crate::error::NetworkError;
use crate::layer::{duplicate, LayerModel};
use crate::network::{mean_squared_error, Network, NetworkModel};
use crate::scalar::{count, difference, exact, product, quotient, sum, zero, Scalar};
use vstd::prelude::*;

verus! {

/// The rows of a vector of vectors, each as a sequence.
pub open spec fn samples<T>(v: Seq<Vec<T>>) -> Seq<Seq<T>> {
    Seq::new(v.len(), |i: int| v[i]@)
}

impl<T: Scalar> NetworkModel<T> {
    /// `input` and `target` have the lengths the network takes and gives.
    pub open spec fn fits(self, input: Seq<T>, target: Seq<T>) -> bool {
        &&& self.well_formed()
        &&& input.len() == self.input_size
        &&& target.len() == self.output_size
    }

    /// There are as many targets as inputs, and each pair fits.
    pub open spec fn fits_all(self, inputs: Seq<Seq<T>>, targets: Seq<Seq<T>>) -> bool {
        &&& self.well_formed()
        &&& inputs.len() == targets.len()
        &&& forall|i: int|
            0 <= i < inputs.len() ==> (#[trigger] inputs[i]).len() == self.input_size
                && targets[i].len() == self.output_size
    }

    /// The error of layer `k` in one training step.
    ///
    /// For the output layer it is the difference between output and target
    /// times the derivative of the activation at the layer's raw output.
    /// For a hidden layer it is what the next layer, already updated, sends
    /// back, times the derivative at the hidden layer's raw output.
    pub open spec fn delta(self, input: Seq<T>, target: Seq<T>, lr: T, k: nat) -> Seq<T>
        decreases self.depth() - k,
    {
        let slope = derivative_seq(self.raw(input, k), self.activation(k as int));
        if k + 1 >= self.depth() {
            let output = self.forward(input);
            Seq::new(slope.len(), |i: int| product(difference(output[i], target[i]), slope[i]))
        } else {
            let after = (k + 1) as nat;
            let next = self.delta(input, target, lr, after);
            let back = self.layer(after as int).descended(
                next,
                self.signal(input, after),
                lr,
            ).back(next, slope.len());
            Seq::new(slope.len(), |i: int| product(back[i], slope[i]))
        }
    }

    /// Layer `k` after one training step.
    pub open spec fn trained_layer(
        self,
        input: Seq<T>,
        target: Seq<T>,
        lr: T,
        k: nat,
    ) -> LayerModel<T> {
        self.layer(k as int).descended(
            self.delta(input, target, lr, k),
            self.signal(input, k),
            lr,
        )
    }

    /// The network after one training step on `(input, target)` with
    /// learning rate `lr`.
    pub open spec fn trained(self, input: Seq<T>, target: Seq<T>, lr: T) -> NetworkModel<T> {
        NetworkModel {
            hidden_layers: Seq::new(
                self.hidden_layers.len(),
                |k: int| self.trained_layer(input, target, lr, k as nat),
            ),
            output: self.trained_layer(input, target, lr, self.hidden_layers.len()),
            ..self
        }
    }

    /// The loss that one training step on `(input, target)` reports: the
    /// mean squared error of the output before the update.
    pub open spec fn loss(self, input: Seq<T>, target: Seq<T>) -> T {
        mean_squared_error(self.forward(input), target)
    }

    /// The network after training once on each of the first `n` samples in
    /// order, and the sum of the losses of these steps.
    pub open spec fn epoch_prefix(
        self,
        inputs: Seq<Seq<T>>,
        targets: Seq<Seq<T>>,
        lr: T,
        n: nat,
    ) -> (NetworkModel<T>, T)
        decreases n,
    {
        if n == 0 {
            (self, zero())
        } else {
            let (net, total) = self.epoch_prefix(inputs, targets, lr, (n - 1) as nat);
            (
                net.trained(inputs[n - 1], targets[n - 1], lr),
                sum(total, net.loss(inputs[n - 1], targets[n - 1])),
            )
        }
    }

    /// The network after one epoch, and the epoch's average loss.
    pub open spec fn epoch(
        self,
        inputs: Seq<Seq<T>>,
        targets: Seq<Seq<T>>,
        lr: T,
    ) -> (NetworkModel<T>, T) {
        let (net, total) = self.epoch_prefix(inputs, targets, lr, inputs.len());
        (net, quotient(total, count(inputs.len() as usize)))
    }

    /// The network after `epochs` epochs, and the average loss of each.
    pub open spec fn fitted(
        self,
        inputs: Seq<Seq<T>>,
        targets: Seq<Seq<T>>,
        epochs: nat,
        lr: T,
    ) -> (NetworkModel<T>, Seq<T>)
        decreases epochs,
    {
        if epochs == 0 {
            (self, Seq::empty())
        } else {
            let (net, losses) = self.fitted(inputs, targets, (epochs - 1) as nat, lr);
            let (next, loss) = net.epoch(inputs, targets, lr);
            (next, losses.push(loss))
        }
    }
}

impl<T: Scalar> Network<T> {
    /// One training step on a sample that fits.
    fn step(&mut self, input: &Vec<T>, target: &Vec<T>, lr: T) -> (loss: T)
        requires
            old(self)@.fits(input@, target@),
        ensures
            final(self)@.well_formed(),
            final(self)@.alike(old(self)@),
            exact::<T>() ==> final(self)@ == old(self)@.trained(input@, target@, lr),
            exact::<T>() ==> loss == old(self)@.loss(input@, target@),
    {
        let ghost pre = self@;
        let hidden = self.hidden_layers.len();
        // Forward pass, keeping what enters each layer and what it gives.
        let mut signals: Vec<Vec<T>> = Vec::new();
        let mut raws: Vec<Vec<T>> = Vec::new();
        signals.push(duplicate(input));
        let mut k: usize = 0;
        while k < hidden
            invariant
                k <= hidden,
                hidden == self.hidden_layers.len(),
                self@ == pre,
                pre.well_formed(),
                signals.len() == k + 1,
                raws.len() == k,
                forall|a: int| 0 <= a <= k ==> (#[trigger] signals[a])@.len() == pre.width(a),
                forall|a: int| 0 <= a < k ==> (#[trigger] raws[a])@.len() == pre.width(a + 1),
                exact::<T>() ==> forall|a: int|
                    0 <= a <= k ==> (#[trigger] signals[a])@ == pre.signal(input@, a as nat),
                exact::<T>() ==> forall|a: int|
                    0 <= a < k ==> (#[trigger] raws[a])@ == pre.raw(input@, a as nat),
            decreases hidden - k,
        {
            assert(pre.layer(k as int) == self.hidden_layers[k as int]@);
            let z = self.hidden_layers[k].output(&signals[k]);
            let a = activate_vec(&z, &self.hidden_activations[k]);
            raws.push(z);
            signals.push(a);
            k += 1;
        }
        let z = self.output.output(&signals[hidden]);
        let out = activate_vec(&z, &self.output_activation);

        let loss = Self::mean_squared(&out, target);

        // The error of the output layer, and its update.
        let slope = activate_derivative_vec(&z, &self.output_activation);
        let mut delta: Vec<T> = Vec::new();
        let mut i: usize = 0;
        while i < out.len()
            invariant
                i <= out.len(),
                out.len() == target.len(),
                out.len() == slope.len(),
                delta.len() == i,
                exact::<T>() ==> forall|a: int|
                    0 <= a < i ==> delta[a] == product(difference(out[a], target[a]), slope[a]),
            decreases out.len() - i,
        {
            delta.push(out[i].minus(target[i]).times(slope[i]));
            i += 1;
        }
        assert(exact::<T>() ==> delta@ =~= pre.delta(input@, target@, lr, hidden as nat));
        self.output.descend(&delta, &signals[hidden], lr);
        proof {
            assert forall|a: int| 0 <= a < self@.depth() implies (#[trigger] self@.layer(
                a,
            )).accepts(self@.width(a)) && self@.layer(a).rows() == self@.width(a + 1) by {
                if a < hidden {
                    assert(self@.layer(a) == pre.layer(a));
                }
            }
        }

        // Back through the hidden layers, last to first.
        let mut l: usize = hidden;
        while l > 0
            invariant
                l <= hidden,
                hidden == pre.hidden_layers.len(),
                self.hidden_layers.len() == hidden,
                pre.well_formed(),
                self@.well_formed(),
                self@.alike(pre),
                signals.len() == hidden + 1,
                raws.len() == hidden,
                forall|a: int| 0 <= a <= hidden ==> (#[trigger] signals[a])@.len() == pre.width(a),
                forall|a: int| 0 <= a < hidden ==> (#[trigger] raws[a])@.len() == pre.width(a + 1),
                delta@.len() == pre.width(l + 1),
                forall|a: int|
                    0 <= a < l ==> (#[trigger] self@.hidden_layers[a]) == pre.hidden_layers[a],
                exact::<T>() ==> forall|a: int|
                    0 <= a <= hidden ==> (#[trigger] signals[a])@ == pre.signal(input@, a as nat),
                exact::<T>() ==> forall|a: int|
                    0 <= a < hidden ==> (#[trigger] raws[a])@ == pre.raw(input@, a as nat),
                exact::<T>() ==> delta@ == pre.delta(input@, target@, lr, l as nat),
                exact::<T>() ==> forall|a: int|
                    l <= a < hidden ==> (#[trigger] self@.hidden_layers[a]) == pre.trained_layer(
                        input@,
                        target@,
                        lr,
                        a as nat,
                    ),
                exact::<T>() ==> self@.output == pre.trained_layer(
                    input@,
                    target@,
                    lr,
                    hidden as nat,
                ),
            decreases l,
        {
            let k = l - 1;
            let ghost before = self@;
            assert(before.layer(k as int) == pre.layer(k as int));
            assert(before.layer(l as int).accepts(before.width(l as int)));
            let slope = activate_derivative_vec(&raws[k], &self.hidden_activations[k]);
            let back = if l == hidden {
                self.output.back(&delta, slope.len())
            } else {
                self.hidden_layers[l].back(&delta, slope.len())
            };
            let mut next: Vec<T> = Vec::new();
            let mut i: usize = 0;
            while i < slope.len()
                invariant
                    i <= slope.len(),
                    back.len() == slope.len(),
                    next.len() == i,
                    exact::<T>() ==> forall|a: int|
                        0 <= a < i ==> next[a] == product(back[a], slope[a]),
                decreases slope.len() - i,
            {
                next.push(back[i].times(slope[i]));
                i += 1;
            }
            assert(exact::<T>() ==> next@ =~= pre.delta(input@, target@, lr, k as nat));
            let ghost layers = self.hidden_layers@;
            self.hidden_layers[k].descend(&next, &signals[k], lr);
            proof {
                assert forall|a: int| 0 <= a < hidden && a != k implies (
                #[trigger] self@.hidden_layers[a]) == before.hidden_layers[a] by {
                    assert(self.hidden_layers@[a] == layers[a]);
                }
                assert forall|a: int| 0 <= a < self@.depth() implies (#[trigger] self@.layer(
                    a,
                )).accepts(self@.width(a)) && self@.layer(a).rows() == self@.width(a + 1) by {
                    if a != k {
                        assert(self@.layer(a) == before.layer(a));
                    }
                }
            }
            delta = next;
            l = k;
        }
        proof {
            if exact::<T>() {
                let post = pre.trained(input@, target@, lr);
                assert(self@.hidden_layers =~= post.hidden_layers);
            }
        }
        loss
    }

    /// What a call of [`Network::train`] on the network `before` gives: the
    /// network `after` it and the result `r`.
    ///
    /// The call succeeds exactly where the sample fits the network and the
    /// output is not empty. A call that fails leaves the network as it was,
    /// and says `Configuration` where the sample does not fit. A call that
    /// succeeds keeps the network well formed, with its sizes and
    /// activations, and for an exact scalar type the new network and the
    /// loss are those of [`NetworkModel::trained`] and
    /// [`NetworkModel::loss`].
    pub open spec fn train_outcome(
        before: Self,
        input: Seq<T>,
        target: Seq<T>,
        lr: T,
        after: Self,
        r: Result<T, NetworkError>,
    ) -> bool {
        &&& r is Ok <==> before@.fits(input, target) && before@.output_size > 0
        &&& r matches Err(e) ==> after == before && e == (if before@.fits(input, target) {
            NetworkError::ArithmeticDegenerate
        } else {
            NetworkError::Configuration
        })
        &&& r matches Ok(loss) ==> after@.well_formed() && after@.alike(before@) && (exact::<T>()
            ==> after@ == before@.trained(input, target, lr) && loss == before@.loss(
            input,
            target,
        ))
    }

    /// Trains the network on one sample: a forward pass, the mean squared
    /// error of its output, and one gradient step on every layer, from the
    /// output layer backwards. Returns the error.
    ///
    /// Fails with `Configuration` unless the network is well formed,
    /// `input` has `input_size` elements and `target` has `output_size`, and
    /// with `ArithmeticDegenerate` where the output is empty. A call that
    /// fails changes nothing.
    pub fn train(&mut self, input: &Vec<T>, target: &Vec<T>, lr: T) -> (r: Result<T, NetworkError>)
        ensures
            Self::train_outcome(*old(self), input@, target@, lr, *final(self), r),
    {
        if !self.is_well_formed() || input.len() != self.input_size || target.len()
            != self.output_size {
            return Err(NetworkError::Configuration);
        }
        if self.output_size == 0 {
            return Err(NetworkError::ArithmeticDegenerate);
        }
        Ok(self.step(input, target, lr))
    }

    /// Trains for `epochs` epochs. Each epoch trains once on every sample,
    /// in the order given, and yields the average of the losses of its
    /// steps; the averages come back in order.
    ///
    /// Fails with `Configuration` unless there are as many targets as
    /// inputs. Where a step is due, that is, with at least one epoch and one
    /// sample, it also fails with `Configuration` unless the network is well
    /// formed and every input has `input_size` elements and every target
    /// `output_size`, and with `ArithmeticDegenerate` where the output is
    /// empty. All of this is tested before the first step, so a call that
    /// fails changes nothing.
    ///
    /// Where no step is due, nothing but the pairing is looked at: neither
    /// the shape of the samples nor that of the network. Such a call
    /// succeeds and changes nothing; with no epochs it gives no losses.
    pub fn fit(
        &mut self,
        inputs: &Vec<Vec<T>>,
        targets: &Vec<Vec<T>>,
        epochs: usize,
        lr: T,
    ) -> (r: Result<Vec<T>, NetworkError>)
        ensures
            r is Ok <==> inputs@.len() == targets@.len() && (epochs == 0 || inputs@.len() == 0
                || (old(self)@.fits_all(samples(inputs@), samples(targets@))
                && old(self)@.output_size > 0)),
            r matches Err(e) ==> *final(self) == *old(self) && e == (if old(self)@.fits_all(
                samples(inputs@),
                samples(targets@),
            ) {
                NetworkError::ArithmeticDegenerate
            } else {
                NetworkError::Configuration
            }),
            r matches Ok(losses) ==> losses@.len() == epochs
                && final(self)@.alike(old(self)@)
                && (old(self)@.well_formed() ==> final(self)@.well_formed())
                && (epochs == 0 || inputs@.len() == 0 ==> *final(self) == *old(self))
                && (exact::<T>() ==> (final(self)@, losses@) == old(self)@.fitted(
                samples(inputs@),
                samples(targets@),
                epochs as nat,
                lr,
            )),
    {
        let ghost ins = samples(inputs@);
        let ghost outs = samples(targets@);
        let ghost pre = self@;
        if inputs.len() != targets.len() {
            return Err(NetworkError::Configuration);
        }
        let due = epochs > 0 && inputs.len() > 0;
        if due {
            if !self.is_well_formed() {
                return Err(NetworkError::Configuration);
            }
            let mut i: usize = 0;
            while i < inputs.len()
                invariant
                    i <= inputs.len(),
                    epochs > 0,
                    inputs.len() == targets.len(),
                    ins == samples(inputs@),
                    outs == samples(targets@),
                    self@ == pre,
                    forall|a: int|
                        0 <= a < i ==> (#[trigger] ins[a]).len() == pre.input_size
                            && outs[a].len() == pre.output_size,
                decreases inputs.len() - i,
            {
                assert(ins[i as int] == inputs[i as int]@ && outs[i as int] == targets[i as int]@);
                if inputs[i].len() != self.input_size || targets[i].len() != self.output_size {
                    return Err(NetworkError::Configuration);
                }
                assert forall|a: int| 0 <= a < i + 1 implies (#[trigger] ins[a]).len()
                    == pre.input_size && outs[a].len() == pre.output_size by {}
                i += 1;
            }
            if self.output_size == 0 {
                return Err(NetworkError::ArithmeticDegenerate);
            }
        }
        let ghost start = *self;
        let mut losses: Vec<T> = Vec::new();
        let mut epoch: usize = 0;
        while epoch < epochs
            invariant
                epoch <= epochs,
                inputs.len() == targets.len(),
                ins == samples(inputs@),
                outs == samples(targets@),
                epochs > 0 && inputs.len() > 0 ==> pre.fits_all(ins, outs) && self@.well_formed(),
                self@.alike(pre),
                losses@.len() == epoch,
                epoch == 0 || inputs.len() == 0 ==> *self == start,
                exact::<T>() ==> (self@, losses@) == pre.fitted(ins, outs, epoch as nat, lr),
            decreases epochs - epoch,
        {
            let ghost begin = self@;
            let mut total = T::zero();
            let mut i: usize = 0;
            while i < inputs.len()
                invariant
                    i <= inputs.len(),
                    inputs.len() == targets.len(),
                    ins == samples(inputs@),
                    outs == samples(targets@),
                    inputs.len() > 0 ==> pre.fits_all(ins, outs) && self@.well_formed(),
                    inputs.len() == 0 ==> *self == start,
                    self@.alike(pre),
                    exact::<T>() ==> (self@, total) == begin.epoch_prefix(ins, outs, lr, i as nat),
                decreases inputs.len() - i,
            {
                assert(ins[i as int] == inputs[i as int]@ && outs[i as int] == targets[i as int]@);
                let loss = self.step(&inputs[i], &targets[i], lr);
                total = total.plus(loss);
                i += 1;
            }
            losses.push(total.over(T::from_count(inputs.len())));
            epoch += 1;
        }
        Ok(losses)
    }
}

} // verus!
