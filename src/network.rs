use vstd::prelude::*;

use crate::error::Error;
use crate::init::Activations;

verus! {

/// Loss functions that a network can be trained against.
#[derive(Clone, Copy, Debug, PartialEq, Eq, Structural)]
pub enum Losses {
    /// Softmax fused with cross-entropy; its gradient is `predictions - labels`.
    SoftmaxCrossEntropy,
    /// Mean of the squared differences.
    MeanSquaredError,
}

/// How a layer's weights are first drawn.
#[derive(Clone, Copy, Debug, PartialEq, Eq, Structural)]
pub enum Init {
    /// Kaiming uniform, with the gain of the layer's activation.
    Kaiming,
    /// Xavier uniform, with a gain of one.
    Xavier,
}

/// The weight initialisation that suits an activation.
pub open spec fn init_for(activation: Activations) -> Init {
    match activation {
        Activations::Relu => Init::Kaiming,
        Activations::Identity => Init::Xavier,
    }
}

/// What `weave` allocates for one dense layer.
#[derive(Clone, Copy, Debug, PartialEq, Eq, Structural)]
pub struct LayerPlan {
    pub in_features: usize,
    pub out_features: usize,
    pub activation: Activations,
    pub init: Init,
}

/// The configuration of a network as a mathematical value.
pub struct BlueprintView {
    pub input_dim: usize,
    pub output_dim: usize,
    pub hidden: Seq<usize>,
    pub hidden_activation: Activations,
    pub loss: Losses,
    pub woven: bool,
}

/// The widths along the stack: input, each hidden width, output.
pub open spec fn widths(v: BlueprintView) -> Seq<usize> {
    seq![v.input_dim] + v.hidden + seq![v.output_dim]
}

/// The plan of layer `k`: from width `k` to width `k + 1`, with the hidden
/// activation on every layer but the last, which stays linear (the loss
/// applies any softmax).
pub open spec fn plan_of(v: BlueprintView, k: int) -> LayerPlan {
    let activation = if k < v.hidden.len() {
        v.hidden_activation
    } else {
        Activations::Identity
    };
    LayerPlan {
        in_features: widths(v)[k],
        out_features: widths(v)[k + 1],
        activation,
        init: init_for(activation),
    }
}

/// The configuration of a network, from its creation until `weave` has laid
/// out its layers. After `weave` it may be used to train.
pub struct Blueprint {
    input_dim: usize,
    output_dim: usize,
    hidden: Vec<usize>,
    hidden_activation: Activations,
    loss: Losses,
    woven: bool,
}

impl View for Blueprint {
    type V = BlueprintView;

    closed spec fn view(&self) -> BlueprintView {
        BlueprintView {
            input_dim: self.input_dim,
            output_dim: self.output_dim,
            hidden: self.hidden@,
            hidden_activation: self.hidden_activation,
            loss: self.loss,
            woven: self.woven,
        }
    }
}

impl Blueprint {
    /// A network from `input_dim` features to `output_dim` outputs through
    /// hidden layers of the given widths; ReLU hidden layers and
    /// softmax cross-entropy unless set otherwise. No layer exists yet.
    pub fn new(input_dim: usize, output_dim: usize, hidden: Vec<usize>) -> (r: Self)
        ensures
            r@ == (BlueprintView {
                input_dim,
                output_dim,
                hidden: hidden@,
                hidden_activation: Activations::Relu,
                loss: Losses::SoftmaxCrossEntropy,
                woven: false,
            }),
    {
        Blueprint {
            input_dim,
            output_dim,
            hidden,
            hidden_activation: Activations::Relu,
            loss: Losses::SoftmaxCrossEntropy,
            woven: false,
        }
    }

    /// Sets the activation of the hidden layers; refused once woven.
    pub fn set_hidden_activation(&mut self, activation: Activations) -> (r: Result<(), Error>)
        ensures
            old(self)@.woven ==> r == Err::<(), Error>(Error::AlreadyWoven) && final(self)@ == old(self)@,
            !old(self)@.woven ==> r is Ok && final(self)@ == (BlueprintView {
                hidden_activation: activation,
                ..old(self)@
            }),
    {
        if self.woven {
            return Err(Error::AlreadyWoven);
        }
        self.hidden_activation = activation;
        Ok(())
    }

    /// Sets the loss function; refused once woven.
    pub fn set_loss(&mut self, loss: Losses) -> (r: Result<(), Error>)
        ensures
            old(self)@.woven ==> r == Err::<(), Error>(Error::AlreadyWoven) && final(self)@ == old(self)@,
            !old(self)@.woven ==> r is Ok && final(self)@ == (BlueprintView { loss, ..old(self)@ }),
    {
        if self.woven {
            return Err(Error::AlreadyWoven);
        }
        self.loss = loss;
        Ok(())
    }

    /// The configured loss function.
    pub fn loss(&self) -> (r: Losses)
        ensures
            r == self@.loss,
    {
        self.loss
    }

    /// Whether `weave` has run.
    pub fn is_woven(&self) -> (r: bool)
        ensures
            r == self@.woven,
    {
        self.woven
    }

    /// Succeeds once the network is woven; `UninitializedState` before, so
    /// that no pass runs on layers that do not exist yet.
    pub fn check_woven(&self) -> (r: Result<(), Error>)
        ensures
            self@.woven ==> r is Ok,
            !self@.woven ==> r == Err::<(), Error>(Error::UninitializedState),
    {
        if self.woven {
            Ok(())
        } else {
            Err(Error::UninitializedState)
        }
    }

    /// Finalises the configuration: returns the plan of each layer, in order
    /// from input to output, one per width transition, and marks the network
    /// woven. A second call fails with `AlreadyWoven` and changes nothing.
    pub fn weave(&mut self) -> (r: Result<Vec<LayerPlan>, Error>)
        requires
            old(self)@.hidden.len() < usize::MAX,
        ensures
            old(self)@.woven ==> r == Err::<Vec<LayerPlan>, Error>(Error::AlreadyWoven)
                && final(self)@ == old(self)@,
            !old(self)@.woven ==> final(self)@ == (BlueprintView { woven: true, ..old(self)@ })
                && match r {
                Ok(plans) => plans@.len() == old(self)@.hidden.len() + 1 && forall|k: int|
                    0 <= k < plans@.len() ==> #[trigger] plans@[k] == plan_of(old(self)@, k),
                Err(_) => false,
            },
    {
        if self.woven {
            return Err(Error::AlreadyWoven);
        }
        let ghost v = self@;
        let n = self.hidden.len();
        let mut plans: Vec<LayerPlan> = Vec::new();
        let mut k: usize = 0;
        while k <= n
            invariant
                self@ == v,
                n == v.hidden.len(),
                n < usize::MAX,
                k <= n + 1,
                plans@.len() == k,
                forall|j: int| 0 <= j < k ==> #[trigger] plans@[j] == plan_of(v, j),
            decreases n + 1 - k,
        {
            let in_features = if k == 0 {
                self.input_dim
            } else {
                self.hidden[k - 1]
            };
            let out_features = if k < n {
                self.hidden[k]
            } else {
                self.output_dim
            };
            let activation = if k < n {
                self.hidden_activation
            } else {
                Activations::Identity
            };
            let init = match activation {
                Activations::Relu => Init::Kaiming,
                Activations::Identity => Init::Xavier,
            };
            let plan = LayerPlan { in_features, out_features, activation, init };
            proof {
                let w = widths(v);
                assert(w[k as int] == in_features);
                assert(w[k + 1] == out_features);
            }
            plans.push(plan);
            k = k + 1;
        }
        self.woven = true;
        Ok(plans)
    }
}

} // verus!
