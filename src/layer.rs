use vstd::prelude::*;

use crate::conv::{conv_compatible, conv_output_of, Dims4};
use crate::error::Error;

verus! {

/// A slot that holds a layer's cached state between two passes: the input
/// saved by `forward` for `backward`, or the gradients saved by `backward`.
pub struct Slot<T> {
    value: Option<T>,
}

impl<T> View for Slot<T> {
    type V = Option<T>;

    closed spec fn view(&self) -> Option<T> {
        self.value
    }
}

impl<T: Clone> Clone for Slot<T> {
    /// A slot holding a clone of what this one holds.
    fn clone(&self) -> (r: Self)
        ensures
            r@ is Some <==> self@ is Some,
    {
        Slot { value: self.value.clone() }
    }
}

impl<T> Default for Slot<T> {
    /// An empty slot.
    fn default() -> (r: Self)
        ensures
            r@ == None::<T>,
    {
        Slot { value: None }
    }
}

impl<T> Slot<T> {
    /// A slot that holds nothing yet.
    pub fn empty() -> (r: Self)
        ensures
            r@ == None::<T>,
    {
        Slot { value: None }
    }

    /// Whether the slot holds a value.
    pub fn is_filled(&self) -> (r: bool)
        ensures
            r == self@ is Some,
    {
        self.value.is_some()
    }

    /// Stores `v`, replacing what the slot held.
    pub fn fill(&mut self, v: T)
        ensures
            final(self)@ == Some(v),
    {
        self.value = Some(v);
    }

    /// The value held, or `UninitializedState` where the slot is empty.
    pub fn get(&self) -> (r: Result<&T, Error>)
        ensures
            match self@ {
                Some(v) => r == Ok::<&T, Error>(&v),
                None => r == Err::<&T, Error>(Error::UninitializedState),
            },
    {
        match &self.value {
            Some(v) => Ok(v),
            None => Err(Error::UninitializedState),
        }
    }

    /// Takes the value out and leaves the slot empty, or fails with
    /// `UninitializedState` where it is empty already.
    pub fn take(&mut self) -> (r: Result<T, Error>)
        ensures
            final(self)@ == None::<T>,
            match old(self)@ {
                Some(v) => r == Ok::<T, Error>(v),
                None => r == Err::<T, Error>(Error::UninitializedState),
            },
    {
        match self.value.take() {
            Some(v) => Ok(v),
            None => Err(Error::UninitializedState),
        }
    }
}

/// Output dimensions (batch, out) of a dense layer with weight (out, in) on
/// an input (batch, in); none where the feature counts differ.
pub open spec fn dense_forward_dims_of(x: (usize, usize), w: (usize, usize)) -> Option<(usize, usize)> {
    if x.1 == w.1 {
        Some((x.0, w.0))
    } else {
        None
    }
}

/// Input-gradient dimensions of a dense layer: those of the cached input,
/// where the gradient is shaped as the layer's output on it.
pub open spec fn dense_backward_dims_of(
    x: (usize, usize),
    w: (usize, usize),
    grad: (usize, usize),
) -> Option<(usize, usize)> {
    if dense_forward_dims_of(x, w) == Some(grad) {
        Some(x)
    } else {
        None
    }
}

/// Input-gradient dimensions of a convolution, defined as for a dense layer.
pub open spec fn conv_backward_dims_of(x: Dims4, w: Dims4, grad: Dims4) -> Option<Dims4> {
    if conv_compatible(x, w) && grad == conv_output_of(x, w) {
        Some(x)
    } else {
        None
    }
}

/// Output dimensions of a dense layer, or a shape error where the input's
/// feature count differs from the weight's.
pub fn dense_forward_dims(x: (usize, usize), w: (usize, usize)) -> (r: Result<(usize, usize), Error>)
    ensures
        match dense_forward_dims_of(x, w) {
            Some(o) => r == Ok::<(usize, usize), Error>(o),
            None => r == Err::<(usize, usize), Error>(Error::Shape),
        },
{
    if x.1 == w.1 {
        Ok((x.0, w.0))
    } else {
        Err(Error::Shape)
    }
}

/// Input-gradient dimensions of a dense layer, or a shape error where the
/// gradient is not shaped as the layer's output on the cached input.
pub fn dense_backward_dims(x: (usize, usize), w: (usize, usize), grad: (usize, usize)) -> (r: Result<
    (usize, usize),
    Error,
>)
    ensures
        match dense_backward_dims_of(x, w, grad) {
            Some(d) => r == Ok::<(usize, usize), Error>(d),
            None => r == Err::<(usize, usize), Error>(Error::Shape),
        },
{
    match dense_forward_dims(x, w) {
        Ok(o) => {
            if o.0 == grad.0 && o.1 == grad.1 {
                Ok(x)
            } else {
                Err(Error::Shape)
            }
        },
        Err(e) => Err(e),
    }
}

/// A dense layer's forward pass followed by its backward pass, with a
/// gradient shaped as the forward output, yields an input gradient shaped
/// exactly as the input.
pub proof fn lemma_dense_backward_matches_input(x: (usize, usize), w: (usize, usize))
    requires
        dense_forward_dims_of(x, w) is Some,
    ensures
        dense_backward_dims_of(x, w, dense_forward_dims_of(x, w).unwrap()) == Some(x),
{
}

/// The same holds of a convolution layer: its backward pass on a gradient
/// shaped as its output yields an input gradient shaped as its input.
pub proof fn lemma_conv_backward_matches_input(x: Dims4, w: Dims4)
    requires
        conv_compatible(x, w),
    ensures
        conv_backward_dims_of(x, w, conv_output_of(x, w)) == Some(x),
{
}

} // verus!
