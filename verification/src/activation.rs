//! Activation functions and their derivatives.

use crate::scalar::{
    difference, exact, exponential, greater, hyperbolic_tangent, larger, negation, one, product,
    quotient, sum, zero, Scalar,
};
use vstd::prelude::*;

verus! {

/// The nonlinearity applied to a layer's raw output.
#[derive(Debug, Clone, Copy, PartialEq, Eq)]
pub enum Activation {
    /// `1 / (1 + e^-x)`.
    Sigmoid,
    /// `max(x, 0)`.
    ReLU,
    /// `tanh(x)`.
    Tanh,
}

/// The name under which an activation is written down.
pub open spec fn tag_of(act: Activation) -> Seq<char> {
    match act {
        Activation::Sigmoid => "Sigmoid"@,
        Activation::ReLU => "ReLU"@,
        Activation::Tanh => "Tanh"@,
    }
}

/// The activation that a name stands for, if it is the name of one.
pub open spec fn tagged(tag: Seq<char>) -> Option<Activation> {
    if tag == "Sigmoid"@ {
        Some(Activation::Sigmoid)
    } else if tag == "ReLU"@ {
        Some(Activation::ReLU)
    } else if tag == "Tanh"@ {
        Some(Activation::Tanh)
    } else {
        None
    }
}

impl Activation {
    /// The name under which the activation is written down: `Sigmoid`,
    /// `ReLU` or `Tanh`.
    pub fn tag(&self) -> (s: String)
        ensures
            s@ == tag_of(*self),
    {
        match self {
            Activation::Sigmoid => String::from_str("Sigmoid"),
            Activation::ReLU => String::from_str("ReLU"),
            Activation::Tanh => String::from_str("Tanh"),
        }
    }

    /// The activation of the given name; `None` for any other text. Names
    /// are matched letter for letter.
    pub fn from_tag(tag: &String) -> (r: Option<Activation>)
        ensures
            r == tagged(tag@),
    {
        if *tag == String::from_str("Sigmoid") {
            Some(Activation::Sigmoid)
        } else if *tag == String::from_str("ReLU") {
            Some(Activation::ReLU)
        } else if *tag == String::from_str("Tanh") {
            Some(Activation::Tanh)
        } else {
            None
        }
    }
}

/// The value of the activation `act` at `x`.
pub open spec fn activated<T: Scalar>(x: T, act: Activation) -> T {
    match act {
        Activation::Sigmoid => quotient(one(), sum(one(), exponential(negation(x)))),
        Activation::ReLU => larger(x, zero()),
        Activation::Tanh => hyperbolic_tangent(x),
    }
}

/// The derivative of the activation `act` at the pre-activation value `x`.
///
/// For `Sigmoid` it is `s * (1 - s)` with `s` the activation at `x`, for
/// `ReLU` it is 1 where `x > 0` and 0 elsewhere (so 0 at `x == 0`), and for
/// `Tanh` it is `1 - tanh(x) * tanh(x)`.
pub open spec fn derivative<T: Scalar>(x: T, act: Activation) -> T {
    match act {
        Activation::Sigmoid => {
            let s = activated(x, Activation::Sigmoid);
            product(s, difference(one(), s))
        },
        Activation::ReLU => if greater(x, zero()) {
            one()
        } else {
            zero()
        },
        Activation::Tanh => {
            let t = hyperbolic_tangent(x);
            difference(one(), product(t, t))
        },
    }
}

/// `activated`, element by element.
pub open spec fn activated_seq<T: Scalar>(v: Seq<T>, act: Activation) -> Seq<T> {
    Seq::new(v.len(), |i: int| activated(v[i], act))
}

/// `derivative`, element by element.
pub open spec fn derivative_seq<T: Scalar>(v: Seq<T>, act: Activation) -> Seq<T> {
    Seq::new(v.len(), |i: int| derivative(v[i], act))
}

/// Applies the activation function to one value.
pub fn activate<T: Scalar>(x: T, act: &Activation) -> (r: T)
    ensures
        exact::<T>() ==> r == activated(x, *act),
{
    match act {
        Activation::Sigmoid => T::one().over(T::one().plus(x.negated().exp())),
        Activation::ReLU => x.max(T::zero()),
        Activation::Tanh => x.tanh(),
    }
}

/// Applies the activation function to every element, keeping order and length.
pub fn activate_vec<T: Scalar>(v: &Vec<T>, act: &Activation) -> (r: Vec<T>)
    ensures
        r.len() == v.len(),
        exact::<T>() ==> r@ == activated_seq(v@, *act),
{
    let mut out: Vec<T> = Vec::new();
    let mut i: usize = 0;
    while i < v.len()
        invariant
            i <= v.len(),
            out.len() == i,
            exact::<T>() ==> forall|k: int| 0 <= k < i ==> out[k] == activated(v[k], *act),
        decreases v.len() - i,
    {
        out.push(activate(v[i], act));
        i += 1;
    }
    out
}

/// The derivative of the activation function at the pre-activation value
/// `x`: the value that was fed to [`activate`], not what it returned.
pub fn activate_derivative<T: Scalar>(x: T, act: &Activation) -> (r: T)
    ensures
        exact::<T>() ==> r == derivative(x, *act),
{
    match act {
        Activation::Sigmoid => {
            let s = activate(x, act);
            s.times(T::one().minus(s))
        },
        Activation::ReLU => {
            if x.exceeds(T::zero()) {
                T::one()
            } else {
                T::zero()
            }
        },
        Activation::Tanh => {
            let t = x.tanh();
            T::one().minus(t.times(t))
        },
    }
}

/// The derivative at every element, keeping order and length.
pub fn activate_derivative_vec<T: Scalar>(v: &Vec<T>, act: &Activation) -> (r: Vec<T>)
    ensures
        r.len() == v.len(),
        exact::<T>() ==> r@ == derivative_seq(v@, *act),
{
    let mut out: Vec<T> = Vec::new();
    let mut i: usize = 0;
    while i < v.len()
        invariant
            i <= v.len(),
            out.len() == i,
            exact::<T>() ==> forall|k: int| 0 <= k < i ==> out[k] == derivative(v[k], *act),
        decreases v.len() - i,
    {
        out.push(activate_derivative(v[i], act));
        i += 1;
    }
    out
}

} // verus!
