// Shape, state and bookkeeping rules of a small neural-network training
// engine: fans and initializer scales, convolution and dense layer shapes,
// cached layer state, datasets and mini-batch counts, and the network's
// configuration until it is woven.
use vstd::prelude::*;

pub mod conv;
pub mod dataset;
pub mod error;
pub mod init;
pub mod layer;
pub mod network;
pub mod shape;

verus! {

} // verus!
