use vstd::prelude::*;
use vstd::arithmetic::div_mod::lemma_fundamental_div_mod;

use crate::error::Error;

verus! {

/// Training examples held ready for mini-batch sampling: one label for each
/// input, in the order given.
pub struct Dataset<X, Y> {
    inputs: Vec<X>,
    labels: Vec<Y>,
}

impl<X, Y> Dataset<X, Y> {
    /// The inputs, in order.
    pub closed spec fn inputs(&self) -> Seq<X> {
        self.inputs@
    }

    /// The labels, in order.
    pub closed spec fn labels(&self) -> Seq<Y> {
        self.labels@
    }

    /// Every input has its label.
    pub open spec fn wf(&self) -> bool {
        self.inputs().len() == self.labels().len()
    }

    /// Packages inputs and labels for training. Fails with `DatasetMismatch`,
    /// and keeps nothing, where their numbers differ.
    pub fn prepare(inputs: Vec<X>, labels: Vec<Y>) -> (r: Result<Self, Error>)
        ensures
            match r {
                Ok(d) => inputs@.len() == labels@.len() && d.wf() && d.inputs() == inputs@
                    && d.labels() == labels@,
                Err(e) => inputs@.len() != labels@.len() && e == Error::DatasetMismatch,
            },
    {
        if inputs.len() != labels.len() {
            return Err(Error::DatasetMismatch);
        }
        Ok(Dataset { inputs, labels })
    }

    /// Number of examples.
    pub fn len(&self) -> (r: usize)
        requires
            self.wf(),
        ensures
            r == self.inputs().len(),
            r == self.labels().len(),
    {
        self.inputs.len()
    }

    /// The example at index `i`: its input and its label.
    pub fn get(&self, i: usize) -> (r: (&X, &Y))
        requires
            self.wf(),
            i < self.inputs().len(),
        ensures
            *r.0 == self.inputs()[i as int],
            *r.1 == self.labels()[i as int],
    {
        (&self.inputs[i], &self.labels[i])
    }
}

/// The number of mini-batches of `sample_size` examples in one epoch over
/// `n` examples: the fewest whose examples add up to at least `n`.
pub open spec fn batch_count(n: nat, sample_size: nat) -> nat
    recommends
        sample_size > 0,
{
    ((n + sample_size - 1) / (sample_size as int)) as nat
}

/// Mini-batches drawn in each epoch, or `InvalidParameter` for an empty
/// sample size. Their count is the least whose total reaches `n`.
pub fn batches_per_epoch(n: usize, sample_size: usize) -> (r: Result<usize, Error>)
    ensures
        match r {
            Ok(b) => sample_size > 0 && b == batch_count(n as nat, sample_size as nat)
                && b * sample_size >= n
                && (b == 0 || (b - 1) * sample_size < n),
            Err(e) => sample_size == 0 && e == Error::InvalidParameter,
        },
{
    if sample_size == 0 {
        return Err(Error::InvalidParameter);
    }
    let q = n / sample_size;
    let b: usize = if n % sample_size == 0 {
        q
    } else {
        proof {
            let s = sample_size as int;
            lemma_fundamental_div_mod(n as int, s);
            assert(q < n) by (nonlinear_arith)
                requires
                    s * q + (n as int) % s == n as int,
                    (n as int) % s >= 1,
                    q >= 0,
                    s >= 1,
            ;
        }
        q + 1
    };
    proof {
        let s = sample_size as int;
        lemma_fundamental_div_mod(n as int, s);
        lemma_fundamental_div_mod(n as int + s - 1, s);
        let m = n as int + s - 1;
        assert(s * (m / s) + m % s == m);
        assert(s * (n as int / s) + (n as int) % s == n as int);
        assert(0 <= m % s < s);
        assert(0 <= (n as int) % s < s);
        if (n as int) % s == 0 {
            assert(m / s == n as int / s) by (nonlinear_arith)
                requires
                    s * (m / s) + m % s == m,
                    s * (n as int / s) == n as int,
                    m == n as int + s - 1,
                    0 <= m % s < s,
                    s > 0,
            ;
        } else {
            assert(m / s == n as int / s + 1) by (nonlinear_arith)
                requires
                    s * (m / s) + m % s == m,
                    s * (n as int / s) + (n as int) % s == n as int,
                    m == n as int + s - 1,
                    0 <= m % s < s,
                    1 <= (n as int) % s < s,
                    s > 0,
            ;
        }
        assert(b * s >= n && (b == 0 || (b - 1) * s < n)) by (nonlinear_arith)
            requires
                s * (n as int / s) + (n as int) % s == n as int,
                0 <= (n as int) % s < s,
                b == (if (n as int) % s == 0 { n as int / s } else { n as int / s + 1 }),
                s > 0,
        ;
    }
    Ok(b)
}

} // verus!
