use neuralnet::network::{element_count, ActivationKind, LayerType, LossKind, NetError, NeuralNetwork};

#[test]
fn shape_pipeline_flatten_then_dense() {
    let mut nn = NeuralNetwork::new2d((28, 28), "cce".to_string());
    assert_eq!(nn.add_flatten(), Ok(()));
    assert_eq!(nn.add_dense(10), Ok(()));
    assert_eq!(nn.input_dims(), &vec![vec![28, 28], vec![784], vec![10]]);
    assert_eq!(nn.check_forward(&vec![28, 28]), Ok(10));
    assert!(matches!(&nn.layers()[0], LayerType::Flatten { shape } if shape == &vec![28, 28]));
    assert!(matches!(nn.layers()[1], LayerType::Dense { input: 784, output: 10 }));
}

#[test]
fn logical_function_network_has_one_output() {
    let mut nn = NeuralNetwork::new1d(2, "none".to_string());
    assert_eq!(nn.add_dense(2), Ok(()));
    assert_eq!(nn.add_activation("sigmoid"), Ok(()));
    assert_eq!(nn.add_dense(1), Ok(()));
    assert_eq!(nn.input_dims(), &vec![vec![2], vec![2], vec![2], vec![1]]);
    assert_eq!(nn.check_forward(&vec![2]), Ok(1));
    assert_eq!(nn.check_loss(1), Err(NetError::InferenceOnly));
    assert_eq!(nn.loss(), LossKind::Inference);
}

#[test]
fn logical_function_network_trains_with_bce() {
    let mut nn = NeuralNetwork::new1d(2, "bce".to_string());
    nn.set_batch_size(4);
    assert_eq!(nn.batch_size(), 4);
    assert_eq!(nn.add_dense(2), Ok(()));
    assert_eq!(nn.add_activation("sigmoid"), Ok(()));
    assert_eq!(nn.add_dense(1), Ok(()));
    assert_eq!(nn.check_loss(1), Ok(LossKind::Bce));
    assert_eq!(nn.check_loss(2), Err(NetError::TargetLength));
}

#[test]
fn add_dense_on_matrix_stage_fails_unchanged() {
    let mut nn = NeuralNetwork::new2d((3, 4), "cce".to_string());
    assert_eq!(nn.add_dense(5), Err(NetError::NotFlat));
    assert_eq!(nn.input_dims(), &vec![vec![3, 4]]);
    assert_eq!(nn.layers().len(), 0);
}

#[test]
fn add_flatten_on_vector_stage_fails_unchanged() {
    let mut nn = NeuralNetwork::new1d(6, "cce".to_string());
    assert_eq!(nn.add_flatten(), Err(NetError::AlreadyFlat));
    assert_eq!(nn.input_dims(), &vec![vec![6]]);
    assert_eq!(nn.layers().len(), 0);
}

#[test]
fn add_dense_zero_outputs_fails() {
    let mut nn = NeuralNetwork::new1d(6, "bce".to_string());
    assert_eq!(nn.add_dense(0), Err(NetError::ZeroOutputDim));
    assert_eq!(nn.input_dims(), &vec![vec![6]]);
}

#[test]
fn unknown_activation_fails_unchanged() {
    let mut nn = NeuralNetwork::new1d(6, "bce".to_string());
    assert_eq!(nn.add_activation("tanh"), Err(NetError::UnknownActivation));
    assert_eq!(nn.layers().len(), 0);
    assert_eq!(nn.input_dims(), &vec![vec![6]]);
}

#[test]
fn activation_keeps_multi_dimensional_shape() {
    let mut nn = NeuralNetwork::new3d((2, 3, 4), "cce".to_string());
    assert_eq!(nn.add_activation("relu"), Ok(()));
    assert_eq!(nn.input_dims(), &vec![vec![2, 3, 4], vec![2, 3, 4]]);
    assert_eq!(nn.check_forward(&vec![2, 3, 4]), Err(NetError::OutputNotFlat));
    assert_eq!(nn.check_loss(24), Err(NetError::OutputNotFlat));
    assert_eq!(nn.add_flatten(), Ok(()));
    assert_eq!(nn.input_dims()[2], vec![24]);
}

#[test]
fn flatten_size_overflow_fails() {
    let mut nn = NeuralNetwork::new2d((usize::MAX, 2), "cce".to_string());
    assert_eq!(nn.add_flatten(), Err(NetError::SizeOverflow));
    assert_eq!(nn.layers().len(), 0);
}

#[test]
fn flatten_with_zero_dimension_has_no_elements() {
    let mut nn = NeuralNetwork::new3d((usize::MAX, usize::MAX, 0), "cce".to_string());
    assert_eq!(nn.add_flatten(), Ok(()));
    assert_eq!(nn.input_dims()[1], vec![0]);
}

#[test]
fn element_counts() {
    assert_eq!(element_count(&vec![28, 28]), Some(784));
    assert_eq!(element_count(&vec![]), Some(1));
    assert_eq!(element_count(&vec![2, 3, 4]), Some(24));
    assert_eq!(element_count(&vec![usize::MAX, 2]), None);
    assert_eq!(element_count(&vec![usize::MAX, 2, 0]), Some(0));
}

#[test]
fn forward_checks() {
    let empty = NeuralNetwork::new1d(3, "bce".to_string());
    assert_eq!(empty.check_forward(&vec![3]), Err(NetError::EmptyNetwork));
    assert_eq!(empty.check_loss(1), Err(NetError::EmptyNetwork));
    let mut nn = NeuralNetwork::new1d(3, "bce".to_string());
    assert_eq!(nn.add_dense(1), Ok(()));
    assert_eq!(nn.check_forward(&vec![4]), Err(NetError::InputShape));
    assert_eq!(nn.check_forward(&vec![3, 1]), Err(NetError::InputShape));
    assert_eq!(nn.check_forward(&vec![3]), Ok(1));
}

#[test]
fn unknown_loss_is_reported() {
    let mut nn = NeuralNetwork::new1d(3, "mse".to_string());
    assert_eq!(nn.loss(), LossKind::Unknown);
    assert_eq!(nn.add_dense(1), Ok(()));
    assert_eq!(nn.check_loss(1), Err(NetError::UnknownLoss));
}

#[test]
fn softmax_needs_cce_and_last_place() {
    let mut ok = NeuralNetwork::new1d(4, "cce".to_string());
    assert_eq!(ok.add_dense(3), Ok(()));
    assert_eq!(ok.add_activation("softmax"), Ok(()));
    assert_eq!(ok.check_loss(3), Ok(LossKind::Cce));

    let mut wrong_loss = NeuralNetwork::new1d(4, "bce".to_string());
    assert_eq!(wrong_loss.add_dense(3), Ok(()));
    assert_eq!(wrong_loss.add_activation("softmax"), Ok(()));
    assert_eq!(wrong_loss.check_loss(3), Err(NetError::SoftmaxCoupling));

    let mut not_last = NeuralNetwork::new1d(4, "cce".to_string());
    assert_eq!(not_last.add_activation("softmax"), Ok(()));
    assert_eq!(not_last.add_dense(3), Ok(()));
    assert_eq!(not_last.check_loss(3), Err(NetError::SoftmaxCoupling));
}

#[test]
fn names_are_parsed() {
    assert_eq!(ActivationKind::parse("sigmoid"), Ok(ActivationKind::Sigmoid));
    assert_eq!(ActivationKind::parse("relu"), Ok(ActivationKind::Relu));
    assert_eq!(ActivationKind::parse("leakyrelu"), Ok(ActivationKind::LeakyRelu));
    assert_eq!(ActivationKind::parse("softmax"), Ok(ActivationKind::Softmax));
    assert_eq!(ActivationKind::parse("Sigmoid"), Err(NetError::UnknownActivation));
    assert_eq!(LossKind::parse("bce"), LossKind::Bce);
    assert_eq!(LossKind::parse("cce"), LossKind::Cce);
    assert_eq!(LossKind::parse("none"), LossKind::Inference);
    assert_eq!(LossKind::parse(""), LossKind::Unknown);
}

#[test]
fn softmax_shortcut_only_for_softmax_under_cce() {
    let mut nn = NeuralNetwork::new1d(4, "cce".to_string());
    assert!(!nn.softmax_shortcut());
    assert_eq!(nn.add_dense(3), Ok(()));
    assert!(!nn.softmax_shortcut());
    assert_eq!(nn.add_activation("softmax"), Ok(()));
    assert!(nn.softmax_shortcut());
    let mut other = NeuralNetwork::new1d(4, "bce".to_string());
    assert_eq!(other.add_activation("softmax"), Ok(()));
    assert!(!other.softmax_shortcut());
}
