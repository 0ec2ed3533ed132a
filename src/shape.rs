use vstd::prelude::*;

use crate::error::Error;

verus! {

/// Product of a sequence of dimension sizes (the empty product is 1).
pub open spec fn product(s: Seq<usize>) -> nat
    decreases s.len(),
{
    if s.len() == 0 {
        1
    } else {
        product(s.drop_last()) * (s.last() as nat)
    }
}

/// Number of elements that a tensor of the given shape holds.
pub open spec fn element_count(dims: Seq<usize>) -> nat {
    product(dims)
}

/// The size of the receptive field: the product of every dimension after
/// the first two.
pub open spec fn receptive_field(dims: Seq<usize>) -> nat {
    product(dims.subrange(2, dims.len() as int))
}

/// Fan-in of a weight tensor shaped (out, in, ...): `in` times the receptive field.
pub open spec fn fan_in(dims: Seq<usize>) -> nat {
    (dims[1] as nat) * receptive_field(dims)
}

/// Fan-out of a weight tensor shaped (out, in, ...): `out` times the receptive field.
pub open spec fn fan_out(dims: Seq<usize>) -> nat {
    (dims[0] as nat) * receptive_field(dims)
}

/// The fans of a shape are defined (two dimensions or more) and fit in a `usize`.
pub open spec fn fans_defined(dims: Seq<usize>) -> bool {
    &&& dims.len() >= 2
    &&& fan_in(dims) <= usize::MAX
    &&& fan_out(dims) <= usize::MAX
}

proof fn lemma_product_has_zero(s: Seq<usize>, k: int)
    requires
        0 <= k < s.len(),
        s[k] == 0,
    ensures
        product(s) == 0,
    decreases s.len(),
{
    let p = product(s.drop_last());
    let l = s.last() as nat;
    if k < s.len() - 1 {
        lemma_product_has_zero(s.drop_last(), k);
        assert(0 * l == 0);
    } else {
        assert(p * 0 == 0);
    }
}

proof fn lemma_product_prefix_le(s: Seq<usize>, k: int)
    requires
        0 <= k <= s.len(),
        forall|i: int| 0 <= i < s.len() ==> s[i] >= 1,
    ensures
        product(s.subrange(0, k)) <= product(s),
    decreases s.len(),
{
    if k < s.len() {
        let t = s.drop_last();
        lemma_product_prefix_le(t, k);
        assert(t.subrange(0, k) =~= s.subrange(0, k));
        let p = product(t);
        let l = s.last() as nat;
        assert(p <= p * l) by (nonlinear_arith)
            requires
                l >= 1,
        ;
    } else {
        assert(s.subrange(0, k) =~= s);
    }
}

/// Product of the dimensions after the first two, or `None` where it does not
/// fit in a `usize`.
pub fn receptive_field_size(dims: &Vec<usize>) -> (r: Option<usize>)
    requires
        dims@.len() >= 2,
    ensures
        match r {
            Some(p) => p == receptive_field(dims@),
            None => receptive_field(dims@) > usize::MAX,
        },
{
    let ghost rest = dims@.subrange(2, dims@.len() as int);
    let n = dims.len();
    let mut i: usize = 2;
    while i < n
        invariant
            2 <= i <= n,
            n == dims@.len(),
            rest == dims@.subrange(2, n as int),
            forall|k: int| 2 <= k < i ==> dims@[k] >= 1,
        decreases n - i,
    {
        if dims[i] == 0 {
            proof {
                lemma_product_has_zero(rest, i - 2);
            }
            return Some(0);
        }
        i = i + 1;
    }
    let mut acc: usize = 1;
    let mut j: usize = 2;
    while j < n
        invariant
            2 <= j <= n,
            n == dims@.len(),
            rest == dims@.subrange(2, n as int),
            forall|k: int| 2 <= k < n ==> dims@[k] >= 1,
            acc == product(rest.subrange(0, j - 2)),
        decreases n - j,
    {
        proof {
            let next = rest.subrange(0, j - 1);
            assert(next.drop_last() =~= rest.subrange(0, j - 2));
            assert(next.last() == dims@[j as int]);
        }
        match acc.checked_mul(dims[j]) {
            Some(p) => {
                acc = p;
            },
            None => {
                proof {
                    lemma_product_prefix_le(rest, j - 1);
                }
                return None;
            },
        }
        j = j + 1;
    }
    proof {
        assert(rest.subrange(0, n - 2) =~= rest);
    }
    Some(acc)
}

/// Fan-in and fan-out of a weight tensor shaped (out, in, ...), each the
/// channel count times the receptive field. A shape of fewer than two
/// dimensions has no fans, and neither has one whose fans overflow a `usize`.
pub fn calculate_fans(dims: &Vec<usize>) -> (r: Result<(usize, usize), Error>)
    ensures
        match r {
            Ok((fi, fo)) => fans_defined(dims@) && fi == fan_in(dims@) && fo == fan_out(dims@),
            Err(e) => !fans_defined(dims@) && e == Error::Shape,
        },
{
    if dims.len() < 2 {
        return Err(Error::Shape);
    }
    let fan_out_channels = dims[0];
    let fan_in_channels = dims[1];
    match receptive_field_size(dims) {
        Some(p) => match (fan_in_channels.checked_mul(p), fan_out_channels.checked_mul(p)) {
            (Some(fi), Some(fo)) => Ok((fi, fo)),
            _ => Err(Error::Shape),
        },
        None => {
            let ghost rf = receptive_field(dims@);
            if fan_in_channels == 0 && fan_out_channels == 0 {
                proof {
                    assert(0 * rf == 0);
                }
                Ok((0, 0))
            } else {
                proof {
                    let c = if fan_in_channels != 0 { fan_in_channels as nat } else { fan_out_channels as nat };
                    assert(c * rf > usize::MAX) by (nonlinear_arith)
                        requires
                            c >= 1,
                            rf > usize::MAX,
                    ;
                }
                Err(Error::Shape)
            }
        },
    }
}

} // verus!
