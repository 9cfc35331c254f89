//! One affine transform: a weight matrix and a bias vector.

use crate::error::NetworkError;
use crate::scalar::{difference, exact, product, sum, zero, Scalar};
use vstd::arithmetic::mul::{lemma_mul_inequality, lemma_mul_is_distributive_add_other_way};
use vstd::prelude::*;

verus! {

/// A fully connected layer.
///
/// `weights` has one row per output unit, each as long as the layer's input;
/// `biases` has one entry per output unit.
#[derive(Debug)]
pub struct Layer<T> {
    pub weights: Vec<Vec<T>>,
    pub biases: Vec<T>,
}

/// The mathematical content of a [`Layer`].
pub struct LayerModel<T> {
    pub weights: Seq<Seq<T>>,
    pub biases: Seq<T>,
}

impl<T> View for Layer<T> {
    type V = LayerModel<T>;

    open spec fn view(&self) -> LayerModel<T> {
        LayerModel {
            weights: Seq::new(self.weights.len() as nat, |i: int| self.weights[i]@),
            biases: self.biases@,
        }
    }
}

impl<T: Copy> Clone for Layer<T> {
    /// A layer with the same weights and biases.
    fn clone(&self) -> (r: Self)
        ensures
            r@ == self@,
    {
        let mut weights: Vec<Vec<T>> = Vec::new();
        let mut i: usize = 0;
        while i < self.weights.len()
            invariant
                i <= self.weights.len(),
                weights.len() == i,
                forall|a: int| 0 <= a < i ==> (#[trigger] weights[a])@ == self.weights[a]@,
            decreases self.weights.len() - i,
        {
            weights.push(duplicate(&self.weights[i]));
            i += 1;
        }
        let r = Layer { weights, biases: duplicate(&self.biases) };
        assert(r@.weights =~= self@.weights);
        r
    }
}

/// A copy of each layer, in order.
pub(crate) fn copy_layers<T: Copy>(layers: &Vec<Layer<T>>) -> (r: Vec<Layer<T>>)
    ensures
        r.len() == layers.len(),
        forall|a: int| 0 <= a < r.len() ==> (#[trigger] r[a])@ == layers[a]@,
{
    let mut out: Vec<Layer<T>> = Vec::new();
    let mut i: usize = 0;
    while i < layers.len()
        invariant
            i <= layers.len(),
            out.len() == i,
            forall|a: int| 0 <= a < i ==> (#[trigger] out[a])@ == layers[a]@,
        decreases layers.len() - i,
    {
        out.push(layers[i].clone());
        i += 1;
    }
    out
}

/// A copy of `v`.
pub(crate) fn duplicate<T: Copy>(v: &Vec<T>) -> (r: Vec<T>)
    ensures
        r@ == v@,
{
    let mut out: Vec<T> = Vec::new();
    let mut i: usize = 0;
    while i < v.len()
        invariant
            i <= v.len(),
            out@ == v@.take(i as int),
        decreases v.len() - i,
    {
        out.push(v[i]);
        i += 1;
    }
    out
}

/// The sum of the first `n` products `w[k] * x[k]`, added up from index 0,
/// starting from zero.
pub open spec fn dot_prefix<T: Scalar>(w: Seq<T>, x: Seq<T>, n: nat) -> T
    decreases n,
{
    if n == 0 {
        zero()
    } else {
        sum(dot_prefix(w, x, (n - 1) as nat), product(w[n - 1], x[n - 1]))
    }
}

/// The dot product of a weight row with an input of the same length.
pub open spec fn dot<T: Scalar>(w: Seq<T>, x: Seq<T>) -> T {
    dot_prefix(w, x, w.len())
}

/// The sum of the first `n` products `weights[j][i] * delta[j]`: the error
/// that the first `n` units of a layer send back to their input `i`.
pub open spec fn back_prefix<T: Scalar>(
    weights: Seq<Seq<T>>,
    delta: Seq<T>,
    i: int,
    n: nat,
) -> T
    decreases n,
{
    if n == 0 {
        zero()
    } else {
        sum(
            back_prefix(weights, delta, i, (n - 1) as nat),
            product(weights[n - 1][i], delta[n - 1]),
        )
    }
}

/// The layer that `values` spells out from position `start` on: `rows` rows
/// of `cols` weights each, row after row, then `rows` biases.
pub open spec fn layer_at<T>(values: Seq<T>, start: int, cols: nat, rows: nat) -> LayerModel<T> {
    LayerModel {
        weights: Seq::new(rows, |i: int| Seq::new(cols, |j: int| values[start + i * cols + j])),
        biases: Seq::new(rows, |i: int| values[start + rows * cols + i]),
    }
}

/// How many parameters a layer with `cols` inputs and `rows` outputs has.
pub open spec fn layer_size(cols: nat, rows: nat) -> nat {
    rows * cols + rows
}

impl<T: Scalar> LayerModel<T> {
    /// The number of output units.
    pub open spec fn rows(self) -> nat {
        self.weights.len()
    }

    /// The layer takes inputs of length `n`: every weight row has length
    /// `n`, and there is one bias per row.
    pub open spec fn accepts(self, n: nat) -> bool {
        &&& self.biases.len() == self.weights.len()
        &&& forall|i: int| 0 <= i < self.weights.len() ==> (#[trigger] self.weights[i]).len() == n
    }

    /// The raw output for `input`: for each unit the dot product of its
    /// weight row with the input, plus its bias.
    pub open spec fn output(self, input: Seq<T>) -> Seq<T> {
        Seq::new(self.weights.len(), |i: int| sum(dot(self.weights[i], input), self.biases[i]))
    }

    /// The error sent back to each of the `n` inputs of the layer, given the
    /// error `delta` of its units.
    pub open spec fn back(self, delta: Seq<T>, n: nat) -> Seq<T> {
        Seq::new(n, |i: int| back_prefix(self.weights, delta, i, self.weights.len()))
    }

    /// The layer after one gradient step: `lr * delta[i] * input[j]` is
    /// taken from weight `[i][j]` and `lr * delta[i]` from bias `[i]`.
    pub open spec fn descended(self, delta: Seq<T>, input: Seq<T>, lr: T) -> LayerModel<T> {
        LayerModel {
            weights: Seq::new(
                self.weights.len(),
                |i: int|
                    Seq::new(
                        self.weights[i].len(),
                        |j: int|
                            difference(
                                self.weights[i][j],
                                product(product(lr, delta[i]), input[j]),
                            ),
                    ),
            ),
            biases: Seq::new(
                self.biases.len(),
                |i: int| difference(self.biases[i], product(lr, delta[i])),
            ),
        }
    }
}

impl<T: Scalar> Layer<T> {
    /// How many parameters a layer with `input_size` inputs and
    /// `output_size` outputs has, or `None` where the number does not fit
    /// in a `usize`.
    pub fn parameter_count(input_size: usize, output_size: usize) -> (r: Option<usize>)
        ensures
            r is Some <==> layer_size(input_size as nat, output_size as nat) <= usize::MAX,
            r matches Some(n) ==> n == layer_size(input_size as nat, output_size as nat),
    {
        match output_size.checked_mul(input_size) {
            Some(w) => w.checked_add(output_size),
            None => None,
        }
    }

    /// Builds a layer with `input_size` inputs and `output_size` outputs
    /// from its parameters in order: the weight rows one after another,
    /// then the biases.
    ///
    /// Fails with `Configuration` unless `values` holds exactly as many
    /// parameters as the layer has.
    pub fn new(
        input_size: usize,
        output_size: usize,
        values: &Vec<T>,
    ) -> (r: Result<Self, NetworkError>)
        ensures
            r is Ok <==> values.len() == layer_size(input_size as nat, output_size as nat),
            r matches Err(e) ==> e == NetworkError::Configuration,
            r matches Ok(layer) ==> layer@.accepts(input_size as nat) && layer@.rows()
                == output_size && layer@ == layer_at(
                values@,
                0,
                input_size as nat,
                output_size as nat,
            ),
    {
        match Self::parameter_count(input_size, output_size) {
            Some(n) => {
                if values.len() == n {
                    Ok(Layer::read(values, 0, input_size, output_size))
                } else {
                    Err(NetworkError::Configuration)
                }
            },
            None => Err(NetworkError::Configuration),
        }
    }

    /// Reads a layer out of `values`, starting at `start`.
    pub(crate) fn read(
        values: &Vec<T>,
        start: usize,
        input_size: usize,
        output_size: usize,
    ) -> (layer: Self)
        requires
            start + layer_size(input_size as nat, output_size as nat) <= values.len(),
        ensures
            layer@ == layer_at(values@, start as int, input_size as nat, output_size as nat),
    {
        let ghost cols = input_size as int;
        let ghost rows = output_size as int;
        let mut weights: Vec<Vec<T>> = Vec::new();
        let mut pos: usize = start;
        let mut i: usize = 0;
        while i < output_size
            invariant
                cols == input_size,
                rows == output_size,
                i <= output_size,
                start + rows * cols + rows <= values.len(),
                pos == start + i * cols,
                weights.len() == i,
                forall|a: int|
                    0 <= a < i ==> (#[trigger] weights[a])@ == Seq::new(
                        cols as nat,
                        |j: int| values[start + a * cols + j],
                    ),
            decreases output_size - i,
        {
            proof {
                lemma_mul_inequality(i + 1, rows, cols);
                lemma_mul_is_distributive_add_other_way(cols, i as int, 1);
            }
            let mut row: Vec<T> = Vec::new();
            let mut j: usize = 0;
            while j < input_size
                invariant
                    cols == input_size,
                    j <= input_size,
                    pos == start + i * cols + j,
                    start + i * cols + cols <= values.len(),
                    row.len() == j,
                    forall|b: int| 0 <= b < j ==> row[b] == values[start + i * cols + b],
                decreases input_size - j,
            {
                row.push(values[pos]);
                pos += 1;
                j += 1;
            }
            weights.push(row);
            i += 1;
        }
        let mut biases: Vec<T> = Vec::new();
        let mut k: usize = 0;
        while k < output_size
            invariant
                cols == input_size,
                rows == output_size,
                k <= output_size,
                start + rows * cols + rows <= values.len(),
                pos == start + rows * cols + k,
                biases.len() == k,
                forall|b: int| 0 <= b < k ==> biases[b] == values[start + rows * cols + b],
            decreases output_size - k,
        {
            biases.push(values[pos]);
            pos += 1;
            k += 1;
        }
        let layer = Layer { weights, biases };
        proof {
            let model = layer_at(values@, start as int, input_size as nat, output_size as nat);
            assert(layer@.biases =~= model.biases);
            assert(layer@.weights =~= model.weights);
        }
        layer
    }

    /// Whether the layer takes inputs of length `n`.
    pub fn accepts(&self, n: usize) -> (b: bool)
        ensures
            b == self@.accepts(n as nat),
    {
        if self.biases.len() != self.weights.len() {
            return false;
        }
        let mut i: usize = 0;
        while i < self.weights.len()
            invariant
                i <= self.weights.len(),
                self.biases.len() == self.weights.len(),
                forall|a: int| 0 <= a < i ==> (#[trigger] self@.weights[a]).len() == n,
            decreases self.weights.len() - i,
        {
            if self.weights[i].len() != n {
                assert(self@.weights[i as int].len() != n);
                return false;
            }
            i += 1;
        }
        true
    }

    /// The raw output of the layer for `input`.
    ///
    /// Fails with `Configuration` unless the layer takes inputs of this
    /// length.
    pub fn forward(&self, input: &Vec<T>) -> (r: Result<Vec<T>, NetworkError>)
        ensures
            r is Ok <==> self@.accepts(input@.len()),
            r matches Err(e) ==> e == NetworkError::Configuration,
            r matches Ok(out) ==> out.len() == self@.rows() && (exact::<T>() ==> out@
                == self@.output(input@)),
    {
        if self.accepts(input.len()) {
            Ok(self.output(input))
        } else {
            Err(NetworkError::Configuration)
        }
    }

    /// The raw output of a layer that takes `input`.
    pub(crate) fn output(&self, input: &Vec<T>) -> (out: Vec<T>)
        requires
            self@.accepts(input@.len()),
        ensures
            out.len() == self@.rows(),
            exact::<T>() ==> out@ == self@.output(input@),
    {
        let mut out: Vec<T> = Vec::new();
        let mut i: usize = 0;
        while i < self.weights.len()
            invariant
                i <= self.weights.len(),
                self@.accepts(input@.len()),
                out.len() == i,
                exact::<T>() ==> forall|a: int|
                    0 <= a < i ==> out[a] == sum(dot(self@.weights[a], input@), self@.biases[a]),
            decreases self.weights.len() - i,
        {
            let row = &self.weights[i];
            assert(row@ == self@.weights[i as int]);
            let mut acc = T::zero();
            let mut j: usize = 0;
            while j < row.len()
                invariant
                    j <= row.len(),
                    row.len() == input.len(),
                    exact::<T>() ==> acc == dot_prefix(row@, input@, j as nat),
                decreases row.len() - j,
            {
                acc = acc.plus(row[j].times(input[j]));
                j += 1;
            }
            out.push(acc.plus(self.biases[i]));
            i += 1;
        }
        out
    }

    /// The error that the layer's units, with error `delta`, send back to
    /// each of its `n` inputs.
    pub(crate) fn back(&self, delta: &Vec<T>, n: usize) -> (out: Vec<T>)
        requires
            self@.accepts(n as nat),
            delta@.len() == self@.rows(),
        ensures
            out.len() == n,
            exact::<T>() ==> out@ == self@.back(delta@, n as nat),
    {
        let mut out: Vec<T> = Vec::new();
        let mut i: usize = 0;
        while i < n
            invariant
                i <= n,
                self@.accepts(n as nat),
                delta@.len() == self@.rows(),
                out.len() == i,
                exact::<T>() ==> forall|a: int|
                    0 <= a < i ==> out[a] == back_prefix(
                        self@.weights,
                        delta@,
                        a,
                        self@.weights.len(),
                    ),
            decreases n - i,
        {
            let mut acc = T::zero();
            let mut j: usize = 0;
            while j < self.weights.len()
                invariant
                    i < n,
                    j <= self.weights.len(),
                    self@.accepts(n as nat),
                    delta@.len() == self@.rows(),
                    exact::<T>() ==> acc == back_prefix(self@.weights, delta@, i as int, j as nat),
                decreases self.weights.len() - j,
            {
                assert(self@.weights[j as int] == self.weights[j as int]@);
                acc = acc.plus(self.weights[j][i].times(delta[j]));
                j += 1;
            }
            out.push(acc);
            i += 1;
        }
        out
    }

    /// One gradient step in place.
    pub(crate) fn descend(&mut self, delta: &Vec<T>, input: &Vec<T>, lr: T)
        requires
            old(self)@.accepts(input@.len()),
            delta@.len() == old(self)@.rows(),
        ensures
            final(self)@.accepts(input@.len()),
            final(self)@.rows() == old(self)@.rows(),
            exact::<T>() ==> final(self)@ == old(self)@.descended(delta@, input@, lr),
    {
        let ghost pre = self@;
        let rows = self.weights.len();
        let cols = input.len();
        let mut i: usize = 0;
        while i < rows
            invariant
                i <= rows,
                rows == pre.rows(),
                cols == input.len(),
                pre.accepts(cols as nat),
                delta@.len() == rows,
                self@.accepts(cols as nat),
                self@.rows() == rows,
                forall|a: int| i <= a < rows ==> self@.weights[a] == pre.weights[a],
                forall|a: int| i <= a < rows ==> self@.biases[a] == pre.biases[a],
                exact::<T>() ==> forall|a: int|
                    0 <= a < i ==> (#[trigger] self@.weights[a]) == pre.descended(
                        delta@,
                        input@,
                        lr,
                    ).weights[a],
                exact::<T>() ==> forall|a: int|
                    0 <= a < i ==> (#[trigger] self@.biases[a]) == pre.descended(
                        delta@,
                        input@,
                        lr,
                    ).biases[a],
            decreases rows - i,
        {
            let step = lr.times(delta[i]);
            let ghost before = self@;
            assert(before.weights[i as int] == self.weights[i as int]@);
            let mut j: usize = 0;
            while j < cols
                invariant
                    i < rows,
                    j <= cols,
                    rows == pre.rows(),
                    cols == input.len(),
                    pre.accepts(cols as nat),
                    delta@.len() == rows,
                    before.weights.len() == rows,
                    self.weights.len() == rows,
                    self.biases@ == before.biases,
                    forall|a: int|
                        0 <= a < rows && a != i ==> (#[trigger] self.weights[a])@
                            == before.weights[a],
                    self.weights[i as int].len() == cols,
                    forall|b: int|
                        j <= b < cols ==> self.weights[i as int][b] == pre.weights[i as int][b],
                    exact::<T>() ==> step == product(lr, delta[i as int]),
                    exact::<T>() ==> forall|b: int|
                        0 <= b < j ==> self.weights[i as int][b] == difference(
                            pre.weights[i as int][b],
                            product(product(lr, delta[i as int]), input[b]),
                        ),
                decreases cols - j,
            {
                let w = self.weights[i][j].minus(step.times(input[j]));
                self.weights[i][j] = w;
                j += 1;
            }
            let b = self.biases[i].minus(step);
            self.biases[i] = b;
            assert forall|a: int| 0 <= a < rows && a != i implies #[trigger] self@.weights[a]
                == before.weights[a] by {}
            i += 1;
        }
        proof {
            let post = pre.descended(delta@, input@, lr);
            assert(exact::<T>() ==> self@.weights =~= post.weights);
            assert(exact::<T>() ==> self@.biases =~= post.biases);
        }
    }
}

} // verus!
