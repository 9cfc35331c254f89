//! The scalar arithmetic the network computes with.
//!
//! The network is generic over its number type. An implementation of
//! [`Scalar`] supplies the primitive operations; everything built on top of
//! them is stated over the spec functions of this module, which name the
//! result of each primitive.
//!
//! # What the names are
//!
//! Each name is defined by `choose` over `call_ensures`: `sum(a, b)` is
//! some value that `a.plus(b)` may return. Verus learns that a value
//! satisfies `call_ensures` from a call in executable code and from nothing
//! else. So in proof code alone a name has no known value, not even for a
//! type whose methods state their results: `zero::<T>()` is then just some
//! `T`. The contracts of the library say which names a result is made of;
//! a caller who wants the values behind them makes the same primitive calls
//! (`T::zero()`, `a.plus(b)`, and so on) and then has, from [`exact`], that
//! each name is what the call's own `ensures` says.
//!
//! # What an implementation has to state
//!
//! For `exact::<T>()` to hold of a type that Verus verifies, every method of
//! its `impl Scalar` carries an `ensures` that fixes the result as a function
//! of the operands, such as `ensures r == my_sum(self, rhs)` on `plus` for a
//! spec function `my_sum` of the type's own. `exact::<T>()` then needs no
//! further proof. A method without such a clause, or with one that leaves
//! two results open, makes `exact::<T>()` unprovable, and the library then
//! promises shapes and errors only.
//!
//! An implementation that is compiled without being verified, such as one
//! over machine floats, states nothing. For it `exact` is an assumption: it
//! holds where every operation returns the same result for the same
//! operands, on every call.

use vstd::prelude::*;

verus! {

/// A number type the network can compute with, such as a 64-bit IEEE float.
///
/// The methods carry no contract, so nothing is assumed of an
/// implementation. What a call returns is known through `call_ensures`
/// alone; the spec functions of this module name that result, and
/// [`exact`] says that an operation has no other result.
pub trait Scalar: Copy {
    /// The number 0.
    fn zero() -> Self;

    /// The number 1.
    fn one() -> Self;

    /// The number `n`, as a scalar.
    fn from_count(n: usize) -> Self;

    /// `self + rhs`.
    fn plus(self, rhs: Self) -> Self;

    /// `self - rhs`.
    fn minus(self, rhs: Self) -> Self;

    /// `self * rhs`.
    fn times(self, rhs: Self) -> Self;

    /// `self / rhs`.
    fn over(self, rhs: Self) -> Self;

    /// `-self`.
    fn negated(self) -> Self;

    /// `e` raised to the power `self`.
    fn exp(self) -> Self;

    /// The hyperbolic tangent of `self`.
    fn tanh(self) -> Self;

    /// The larger of `self` and `rhs`.
    fn max(self, rhs: Self) -> Self;

    /// Whether `self > rhs`.
    fn exceeds(self, rhs: Self) -> bool;
}

/// What `T::zero()` returns.
pub open spec fn zero<T: Scalar>() -> T {
    choose|r: T| call_ensures(T::zero, (), r)
}

/// What `T::one()` returns.
pub open spec fn one<T: Scalar>() -> T {
    choose|r: T| call_ensures(T::one, (), r)
}

/// What `T::from_count(n)` returns.
pub open spec fn count<T: Scalar>(n: usize) -> T {
    choose|r: T| call_ensures(T::from_count, (n,), r)
}

/// What `a.plus(b)` returns.
pub open spec fn sum<T: Scalar>(a: T, b: T) -> T {
    choose|r: T| call_ensures(T::plus, (a, b), r)
}

/// What `a.minus(b)` returns.
pub open spec fn difference<T: Scalar>(a: T, b: T) -> T {
    choose|r: T| call_ensures(T::minus, (a, b), r)
}

/// What `a.times(b)` returns.
pub open spec fn product<T: Scalar>(a: T, b: T) -> T {
    choose|r: T| call_ensures(T::times, (a, b), r)
}

/// What `a.over(b)` returns.
pub open spec fn quotient<T: Scalar>(a: T, b: T) -> T {
    choose|r: T| call_ensures(T::over, (a, b), r)
}

/// What `a.negated()` returns.
pub open spec fn negation<T: Scalar>(a: T) -> T {
    choose|r: T| call_ensures(T::negated, (a,), r)
}

/// What `a.exp()` returns.
pub open spec fn exponential<T: Scalar>(a: T) -> T {
    choose|r: T| call_ensures(T::exp, (a,), r)
}

/// What `a.tanh()` returns.
pub open spec fn hyperbolic_tangent<T: Scalar>(a: T) -> T {
    choose|r: T| call_ensures(T::tanh, (a,), r)
}

/// What `a.max(b)` returns.
pub open spec fn larger<T: Scalar>(a: T, b: T) -> T {
    choose|r: T| call_ensures(T::max, (a, b), r)
}

/// What `a.exceeds(b)` returns.
pub open spec fn greater<T: Scalar>(a: T, b: T) -> bool {
    choose|r: bool| call_ensures(T::exceeds, (a, b), r)
}

/// Every operation of `T` is a function of its operands: a call can return
/// nothing but the value that this module names for it.
///
/// The contracts of the library pin numeric results down for exact scalar
/// types. For any other type they still state shapes, errors and which
/// parameters are left alone.
pub open spec fn exact<T: Scalar>() -> bool {
    &&& forall|r: T| call_ensures(T::zero, (), r) ==> r == zero::<T>()
    &&& forall|r: T| call_ensures(T::one, (), r) ==> r == one::<T>()
    &&& forall|n: usize, r: T| call_ensures(T::from_count, (n,), r) ==> r == count::<T>(n)
    &&& forall|a: T, b: T, r: T| call_ensures(T::plus, (a, b), r) ==> r == sum(a, b)
    &&& forall|a: T, b: T, r: T| call_ensures(T::minus, (a, b), r) ==> r == difference(a, b)
    &&& forall|a: T, b: T, r: T| call_ensures(T::times, (a, b), r) ==> r == product(a, b)
    &&& forall|a: T, b: T, r: T| call_ensures(T::over, (a, b), r) ==> r == quotient(a, b)
    &&& forall|a: T, r: T| call_ensures(T::negated, (a,), r) ==> r == negation(a)
    &&& forall|a: T, r: T| call_ensures(T::exp, (a,), r) ==> r == exponential(a)
    &&& forall|a: T, r: T| call_ensures(T::tanh, (a,), r) ==> r == hyperbolic_tangent(a)
    &&& forall|a: T, b: T, r: T| call_ensures(T::max, (a, b), r) ==> r == larger(a, b)
    &&& forall|a: T, b: T, r: bool| call_ensures(T::exceeds, (a, b), r) ==> r == greater(a, b)
}

} // verus!
