use manifold::dataset::{batches_per_epoch, Dataset};
use manifold::error::Error;
use manifold::init::Activations;
use manifold::network::{Blueprint, Init, LayerPlan, Losses};

#[test]
fn prepare_mismatched_lengths() {
    let inputs = vec![vec![0.0f64, 1.0]; 5];
    let labels = vec![vec![1.0f64, 0.0]; 4];
    assert!(matches!(Dataset::prepare(inputs, labels), Err(Error::DatasetMismatch)));
}

#[test]
fn prepare_keeps_examples_in_order() {
    let d = Dataset::prepare(vec![10, 20, 30], vec!['a', 'b', 'c']).unwrap();
    assert_eq!(d.len(), 3);
    assert_eq!(d.get(0), (&10, &'a'));
    assert_eq!(d.get(2), (&30, &'c'));
}

#[test]
fn prepare_empty() {
    let d = Dataset::<u8, u8>::prepare(vec![], vec![]).unwrap();
    assert_eq!(d.len(), 0);
}

#[test]
fn batch_counts() {
    assert_eq!(batches_per_epoch(5000, 4), Ok(1250));
    assert_eq!(batches_per_epoch(10, 4), Ok(3));
    assert_eq!(batches_per_epoch(3, 4), Ok(1));
    assert_eq!(batches_per_epoch(0, 4), Ok(0));
    assert_eq!(batches_per_epoch(usize::MAX, 2), Ok(usize::MAX / 2 + 1));
    assert_eq!(batches_per_epoch(10, 0), Err(Error::InvalidParameter));
}

#[test]
fn forward_before_weave_is_uninitialized() {
    let b = Blueprint::new(2, 2, vec![4]);
    assert!(!b.is_woven());
    assert_eq!(b.check_woven(), Err(Error::UninitializedState));
}

#[test]
fn weave_plans_each_layer() {
    let mut b = Blueprint::new(2, 2, vec![4]);
    b.set_hidden_activation(Activations::Relu).unwrap();
    b.set_loss(Losses::SoftmaxCrossEntropy).unwrap();
    let plans = b.weave().unwrap();
    assert_eq!(
        plans,
        vec![
            LayerPlan { in_features: 2, out_features: 4, activation: Activations::Relu, init: Init::Kaiming },
            LayerPlan {
                in_features: 4,
                out_features: 2,
                activation: Activations::Identity,
                init: Init::Xavier,
            },
        ]
    );
    assert_eq!(b.check_woven(), Ok(()));
    assert_eq!(b.loss(), Losses::SoftmaxCrossEntropy);
}

#[test]
fn weave_deep_identity_stack() {
    let mut b = Blueprint::new(3, 1, vec![5, 6]);
    b.set_hidden_activation(Activations::Identity).unwrap();
    let plans = b.weave().unwrap();
    let dims: Vec<(usize, usize)> = plans.iter().map(|p| (p.in_features, p.out_features)).collect();
    assert_eq!(dims, vec![(3, 5), (5, 6), (6, 1)]);
    assert!(plans.iter().all(|p| p.init == Init::Xavier));
}

#[test]
fn weave_without_hidden_layers() {
    let mut b = Blueprint::new(3, 2, vec![]);
    let plans = b.weave().unwrap();
    assert_eq!(plans.len(), 1);
    assert_eq!((plans[0].in_features, plans[0].out_features), (3, 2));
}

#[test]
fn weave_twice_is_refused() {
    let mut b = Blueprint::new(2, 2, vec![4]);
    assert!(b.weave().is_ok());
    assert_eq!(b.weave(), Err(Error::AlreadyWoven));
    assert_eq!(b.set_loss(Losses::MeanSquaredError), Err(Error::AlreadyWoven));
    assert_eq!(b.set_hidden_activation(Activations::Identity), Err(Error::AlreadyWoven));
    assert_eq!(b.loss(), Losses::SoftmaxCrossEntropy);
}
