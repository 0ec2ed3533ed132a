use vstd::prelude::*;

use crate::error::Error;
use crate::shape::{
    calculate_fans, element_count, fan_in, fan_out, fans_defined, product, receptive_field,
};

verus! {

/// Activation functions that a layer can apply to its output.
#[derive(Clone, Copy, Debug, PartialEq, Eq, Structural)]
pub enum Activations {
    Identity,
    Relu,
}

/// The square of the recommended initialisation gain of an activation:
/// 1 for the identity, 2 for ReLU (whose gain is the square root of 2).
pub open spec fn gain_sq(activation: Activations) -> nat {
    match activation {
        Activations::Identity => 1,
        Activations::Relu => 2,
    }
}

/// The squared scale of an initialising distribution, as the exact ratio
/// `num / den`: the square of the uniform bound, or the variance of the
/// normal distribution. A zero `den` only comes with a shape that holds no
/// elements, where nothing is drawn.
#[derive(Clone, Copy, Debug, PartialEq, Eq, Structural)]
pub struct Scale {
    pub num: u64,
    pub den: u128,
}

/// Square of the recommended gain of an activation.
pub fn calculate_gain_squared(activation: Activations) -> (r: u64)
    ensures
        r == gain_sq(activation),
{
    match activation {
        Activations::Identity => 1,
        Activations::Relu => 2,
    }
}

proof fn lemma_product_first(s: Seq<usize>)
    requires
        s.len() >= 1,
    ensures
        product(s) == (s[0] as nat) * product(s.subrange(1, s.len() as int)),
    decreases s.len(),
{
    let tail = s.subrange(1, s.len() as int);
    if s.len() == 1 {
        assert(s.drop_last() =~= Seq::<usize>::empty());
        assert(tail =~= Seq::<usize>::empty());
        assert(product(s) == product(s.drop_last()) * (s.last() as nat));
        assert(product(s.drop_last()) == 1);
        assert(product(tail) == 1);
        assert(s.last() == s[0]);
        let x = s[0] as nat;
        assert(1 * x == x * 1) by (nonlinear_arith);
    } else {
        let t = s.drop_last();
        lemma_product_first(t);
        assert(tail.drop_last() =~= t.subrange(1, t.len() as int));
        assert(tail.last() == s.last());
        let a = s[0] as nat;
        let m = product(t.subrange(1, t.len() as int));
        let l = s.last() as nat;
        assert(product(s) == product(t) * l);
        assert(product(tail) == product(tail.drop_last()) * (tail.last() as nat));
        assert(t[0] == s[0]);
        assert(a * m * l == a * (m * l)) by (nonlinear_arith);
        assert(product(t) == a * m);
        assert(product(tail) == m * l);
        assert(product(s) == a * product(tail));
    }
}

/// A tensor shaped (out, in, ...) holds `out` times its fan-in elements, so
/// where either fan is zero it holds no elements.
pub proof fn lemma_fans_count_elements(dims: Seq<usize>)
    requires
        dims.len() >= 2,
    ensures
        element_count(dims) == (dims[0] as nat) * fan_in(dims),
        element_count(dims) == (dims[1] as nat) * fan_out(dims),
        fan_in(dims) == 0 ==> element_count(dims) == 0,
        fan_out(dims) == 0 ==> element_count(dims) == 0,
{
    lemma_product_first(dims);
    let tail = dims.subrange(1, dims.len() as int);
    lemma_product_first(tail);
    assert(tail.subrange(1, tail.len() as int) =~= dims.subrange(2, dims.len() as int));
    let a = dims[0] as nat;
    let b = dims[1] as nat;
    let rf = receptive_field(dims);
    assert(a * (b * rf) == b * (a * rf)) by (nonlinear_arith);
    assert(b * 0 == 0);
    assert(a * 0 == 0);
}

/// Every shape of two or more dimensions that holds at least one element,
/// and no more than a `usize` can count, has both fans defined, so each
/// initializer scale below exists for it.
pub proof fn lemma_fans_defined_for_nonempty(dims: Seq<usize>)
    requires
        dims.len() >= 2,
        0 < element_count(dims) <= usize::MAX,
    ensures
        fans_defined(dims),
{
    lemma_fans_count_elements(dims);
    let c = element_count(dims);
    let a = dims[0] as nat;
    let b = dims[1] as nat;
    let fi = fan_in(dims);
    let fo = fan_out(dims);
    assert(fi <= c) by (nonlinear_arith)
        requires
            c == a * fi,
            c > 0,
    ;
    assert(fo <= c) by (nonlinear_arith)
        requires
            c == b * fo,
            c > 0,
    ;
}

/// Squared scale of the Xavier uniform distribution before its gain:
/// the bound is `gain * sqrt(6 / (fan_in + fan_out))`.
pub fn xavier_uniform_scale(dims: &Vec<usize>) -> (r: Result<Scale, Error>)
    ensures
        dims@.len() < 2 ==> r == Err::<Scale, Error>(Error::Shape),
        match r {
            Ok(s) => fans_defined(dims@) && s.num == 6 && s.den == fan_in(dims@) + fan_out(dims@)
                && (s.den == 0 ==> element_count(dims@) == 0),
            Err(e) => !fans_defined(dims@) && e == Error::Shape,
        },
{
    xavier_scale(dims, 6)
}

/// Squared scale of the Xavier normal distribution before its gain:
/// the standard deviation is `gain * sqrt(2 / (fan_in + fan_out))`.
pub fn xavier_normal_scale(dims: &Vec<usize>) -> (r: Result<Scale, Error>)
    ensures
        dims@.len() < 2 ==> r == Err::<Scale, Error>(Error::Shape),
        match r {
            Ok(s) => fans_defined(dims@) && s.num == 2 && s.den == fan_in(dims@) + fan_out(dims@)
                && (s.den == 0 ==> element_count(dims@) == 0),
            Err(e) => !fans_defined(dims@) && e == Error::Shape,
        },
{
    xavier_scale(dims, 2)
}

fn xavier_scale(dims: &Vec<usize>, num: u64) -> (r: Result<Scale, Error>)
    ensures
        match r {
            Ok(s) => fans_defined(dims@) && s.num == num && s.den == fan_in(dims@) + fan_out(dims@)
                && (s.den == 0 ==> element_count(dims@) == 0),
            Err(e) => !fans_defined(dims@) && e == Error::Shape,
        },
{
    match calculate_fans(dims) {
        Ok((fi, fo)) => {
            proof {
                lemma_fans_count_elements(dims@);
            }
            Ok(Scale { num, den: fi as u128 + fo as u128 })
        },
        Err(e) => Err(e),
    }
}

/// Squared scale of the Kaiming uniform distribution: the bound is
/// `gain * sqrt(6 / fan_in)`, with the gain of the activation.
pub fn kaiming_uniform_scale(dims: &Vec<usize>, activation: Activations) -> (r: Result<Scale, Error>)
    ensures
        dims@.len() < 2 ==> r == Err::<Scale, Error>(Error::Shape),
        match r {
            Ok(s) => fans_defined(dims@) && s.num == 6 * gain_sq(activation) && s.den == fan_in(dims@)
                && (s.den == 0 ==> element_count(dims@) == 0),
            Err(e) => !fans_defined(dims@) && e == Error::Shape,
        },
{
    kaiming_scale(dims, 6, activation)
}

/// Squared scale of the Kaiming normal distribution: the standard deviation
/// is `gain * sqrt(2 / fan_in)`, with the gain of the activation.
pub fn kaiming_normal_scale(dims: &Vec<usize>, activation: Activations) -> (r: Result<Scale, Error>)
    ensures
        dims@.len() < 2 ==> r == Err::<Scale, Error>(Error::Shape),
        match r {
            Ok(s) => fans_defined(dims@) && s.num == 2 * gain_sq(activation) && s.den == fan_in(dims@)
                && (s.den == 0 ==> element_count(dims@) == 0),
            Err(e) => !fans_defined(dims@) && e == Error::Shape,
        },
{
    kaiming_scale(dims, 2, activation)
}

fn kaiming_scale(dims: &Vec<usize>, base: u64, activation: Activations) -> (r: Result<Scale, Error>)
    requires
        base <= 6,
    ensures
        match r {
            Ok(s) => fans_defined(dims@) && s.num == base * gain_sq(activation) && s.den == fan_in(dims@)
                && (s.den == 0 ==> element_count(dims@) == 0),
            Err(e) => !fans_defined(dims@) && e == Error::Shape,
        },
{
    match calculate_fans(dims) {
        Ok((fi, _)) => {
            proof {
                lemma_fans_count_elements(dims@);
            }
            let gain_squared = calculate_gain_squared(activation);
            Ok(Scale { num: base * gain_squared, den: fi as u128 })
        },
        Err(e) => Err(e),
    }
}

} // verus!
