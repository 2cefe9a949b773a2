use vstd::prelude::*;

verus! {

/// The elementwise activation functions, and softmax.
#[derive(PartialEq, Eq, Structural, Clone, Copy, Debug)]
pub enum ActivationKind {
    Sigmoid,
    Relu,
    LeakyRelu,
    /// Only valid as the last layer and together with the `cce` loss: its backward
    /// pass takes the target and returns `output - target`.
    Softmax,
}

/// The loss a network is trained with.
#[derive(PartialEq, Eq, Structural, Clone, Copy, Debug)]
pub enum LossKind {
    /// Binary cross-entropy, after a sigmoid output.
    Bce,
    /// Categorical cross-entropy, after a softmax output.
    Cce,
    /// Inference only: no backward pass and no loss value.
    Inference,
    /// A loss name that is not recognised; every call that needs a loss fails.
    Unknown,
}

/// Why a network refused a layer or a call.
#[derive(PartialEq, Eq, Structural, Clone, Copy, Debug)]
pub enum NetError {
    /// A dense layer was asked for zero outputs.
    ZeroOutputDim,
    /// A dense layer was asked for while the current stage has more than one dimension.
    NotFlat,
    /// A flatten layer was asked for while the current stage has one dimension.
    AlreadyFlat,
    /// The activation name is none of `sigmoid`, `relu`, `leakyrelu`, `softmax`.
    UnknownActivation,
    /// The flattened size does not fit in a `usize`.
    SizeOverflow,
    /// The network has no layer yet.
    EmptyNetwork,
    /// The input does not have the network's input shape.
    InputShape,
    /// The last stage has more than one dimension, so there is no output vector.
    OutputNotFlat,
    /// The target's length differs from the output's.
    TargetLength,
    /// The loss kind is `none`: the network is for inference only.
    InferenceOnly,
    /// The loss name was not recognised.
    UnknownLoss,
    /// A softmax layer that is not last, or not paired with the `cce` loss.
    SoftmaxCoupling,
}

/// The spec-level name of each activation.
pub open spec fn activation_named(name: Seq<char>) -> Option<ActivationKind> {
    if name == "sigmoid"@ {
        Some(ActivationKind::Sigmoid)
    } else if name == "relu"@ {
        Some(ActivationKind::Relu)
    } else if name == "leakyrelu"@ {
        Some(ActivationKind::LeakyRelu)
    } else if name == "softmax"@ {
        Some(ActivationKind::Softmax)
    } else {
        None
    }
}

/// The spec-level name of each loss.
pub open spec fn loss_named(name: Seq<char>) -> LossKind {
    if name == "bce"@ {
        LossKind::Bce
    } else if name == "cce"@ {
        LossKind::Cce
    } else if name == "none"@ {
        LossKind::Inference
    } else {
        LossKind::Unknown
    }
}

fn str_is(s: &str, lit: &str) -> (r: bool)
    ensures
        r == (s@ == lit@),
{
    s.to_owned() == lit.to_owned()
}

impl ActivationKind {
    /// Reads an activation name.
    pub fn parse(name: &str) -> (r: Result<ActivationKind, NetError>)
        ensures
            activation_named(name@) matches Some(k) ==> r == Ok::<ActivationKind, NetError>(k),
            activation_named(name@) is None ==> r == Err::<ActivationKind, NetError>(
                NetError::UnknownActivation,
            ),
    {
        if str_is(name, "sigmoid") {
            Ok(ActivationKind::Sigmoid)
        } else if str_is(name, "relu") {
            Ok(ActivationKind::Relu)
        } else if str_is(name, "leakyrelu") {
            Ok(ActivationKind::LeakyRelu)
        } else if str_is(name, "softmax") {
            Ok(ActivationKind::Softmax)
        } else {
            Err(NetError::UnknownActivation)
        }
    }
}

impl LossKind {
    /// Reads a loss name; a name that is not recognised gives `Unknown`.
    pub fn parse(name: &str) -> (r: LossKind)
        ensures
            r == loss_named(name@),
    {
        if str_is(name, "bce") {
            LossKind::Bce
        } else if str_is(name, "cce") {
            LossKind::Cce
        } else if str_is(name, "none") {
            LossKind::Inference
        } else {
            LossKind::Unknown
        }
    }
}

/// The number of elements of a tensor of the given shape.
pub open spec fn product(shape: Seq<usize>) -> nat
    decreases shape.len(),
{
    if shape.len() == 0 {
        1
    } else {
        product(shape.drop_last()) * (shape.last() as nat)
    }
}

/// One layer of a network, as far as its shape goes. The weights and caches of
/// the numeric layers are kept by the caller, sized from these shapes.
pub enum LayerType {
    /// A fully connected layer from `input` to `output` values.
    Dense { input: usize, output: usize },
    /// An activation; it keeps the shape of its input.
    Activation(ActivationKind),
    /// Flattens a tensor of shape `shape` into one vector; the backward pass
    /// reshapes the gradient back to `shape`.
    Flatten { shape: Vec<usize> },
}

/// Whether a layer can follow a stage of the given shape.
pub open spec fn accepts(layer: LayerType, stage: Seq<usize>) -> bool {
    match layer {
        LayerType::Dense { input, output } => stage == seq![input] && output > 0,
        LayerType::Activation(_) => stage.len() >= 1,
        LayerType::Flatten { shape } => shape@ == stage && stage.len() > 1 && product(stage)
            <= usize::MAX,
    }
}

/// The shape of a layer's output, given the shape of its input.
pub open spec fn output_shape(layer: LayerType, stage: Seq<usize>) -> Seq<usize> {
    match layer {
        LayerType::Dense { input, output } => seq![output],
        LayerType::Activation(_) => stage,
        LayerType::Flatten { shape } => seq![product(stage) as usize],
    }
}

/// Whether the layer is a softmax activation.
pub open spec fn is_softmax(layer: LayerType) -> bool {
    layer matches LayerType::Activation(ActivationKind::Softmax)
}

/// The structure of a feed-forward network: its layers in execution order, the
/// shape of every stage (the input, then the output of each layer), the loss it
/// is trained with and the batch size.
pub struct NeuralNetwork {
    input_dims: Vec<Vec<usize>>,
    layers: Vec<LayerType>,
    loss: LossKind,
    batch_size: usize,
}

fn copy_dims(v: &Vec<usize>) -> (r: Vec<usize>)
    ensures
        r@ == v@,
{
    let mut r: Vec<usize> = Vec::new();
    let mut i: usize = 0;
    while i < v.len()
        invariant
            i <= v@.len(),
            r@ == v@.take(i as int),
        decreases v@.len() - i,
    {
        r.push(v[i]);
        i = i + 1;
        proof {
            assert(r@ =~= v@.take(i as int));
        }
    }
    proof {
        assert(v@.take(i as int) =~= v@);
    }
    r
}

proof fn lemma_product_prefix_le(shape: Seq<usize>, i: int)
    requires
        0 <= i <= shape.len(),
        forall|j: int| 0 <= j < shape.len() ==> shape[j] >= 1,
    ensures
        product(shape.take(i)) <= product(shape),
    decreases shape.len() - i,
{
    if i < shape.len() {
        lemma_product_prefix_le(shape, i + 1);
        let p = product(shape.take(i));
        let x = shape[i] as nat;
        assert(shape.take(i + 1).drop_last() =~= shape.take(i));
        assert(p <= p * x) by (nonlinear_arith)
            requires
                x >= 1,
        ;
    } else {
        assert(shape.take(i) =~= shape);
    }
}

proof fn lemma_product_zero(shape: Seq<usize>, k: int)
    requires
        0 <= k < shape.len(),
        shape[k] == 0,
    ensures
        product(shape) == 0,
    decreases shape.len(),
{
    let p = product(shape.drop_last());
    if k < shape.len() - 1 {
        assert(shape.drop_last()[k] == 0);
        lemma_product_zero(shape.drop_last(), k);
        assert(p * (shape.last() as nat) == 0) by (nonlinear_arith)
            requires
                p == 0,
        ;
    } else {
        assert(p * (shape.last() as nat) == 0) by (nonlinear_arith)
            requires
                shape.last() == 0,
        ;
    }
}

/// The number of elements of a tensor of shape `shape`, or `None` where that
/// number does not fit in a `usize`.
pub fn element_count(shape: &Vec<usize>) -> (r: Option<usize>)
    ensures
        product(shape@) <= usize::MAX ==> r == Some(product(shape@) as usize),
        product(shape@) > usize::MAX ==> r is None,
{
    let mut k: usize = 0;
    while k < shape.len()
        invariant
            k <= shape@.len(),
            forall|j: int| 0 <= j < k ==> shape@[j] >= 1,
        decreases shape@.len() - k,
    {
        if shape[k] == 0 {
            proof {
                lemma_product_zero(shape@, k as int);
            }
            return Some(0);
        }
        k = k + 1;
    }
    let mut acc: usize = 1;
    let mut i: usize = 0;
    while i < shape.len()
        invariant
            i <= shape@.len(),
            forall|j: int| 0 <= j < shape@.len() ==> shape@[j] >= 1,
            acc as nat == product(shape@.take(i as int)),
        decreases shape@.len() - i,
    {
        proof {
            assert(shape@.take(i + 1).drop_last() =~= shape@.take(i as int));
        }
        match acc.checked_mul(shape[i]) {
            Some(m) => {
                acc = m;
            },
            None => {
                proof {
                    lemma_product_prefix_le(shape@, i + 1);
                }
                return None;
            },
        }
        i = i + 1;
    }
    proof {
        assert(shape@.take(i as int) =~= shape@);
    }
    Some(acc)
}

impl NeuralNetwork {
    /// The shape of every stage: the input, then the output of each layer.
    pub closed spec fn stages(&self) -> Seq<Seq<usize>> {
        self.input_dims@.map_values(|v: Vec<usize>| v@)
    }

    /// The layers, in execution order.
    pub closed spec fn layer_seq(&self) -> Seq<LayerType> {
        self.layers@
    }

    pub closed spec fn loss_spec(&self) -> LossKind {
        self.loss
    }

    pub closed spec fn batch_size_spec(&self) -> usize {
        self.batch_size
    }

    /// The shape of the current (last) stage.
    pub open spec fn current_stage(&self) -> Seq<usize> {
        self.stages().last()
    }

    /// Every layer accepts the stage before it, and the stage after it is that
    /// layer's output shape.
    pub open spec fn wf(&self) -> bool {
        &&& self.stages().len() == self.layer_seq().len() + 1
        &&& self.stages()[0].len() >= 1
        &&& forall|i: int|
            0 <= i < self.layer_seq().len() ==> accepts(#[trigger] self.layer_seq()[i], self.stages()[i])
                && self.stages()[i + 1] == output_shape(self.layer_seq()[i], self.stages()[i])
    }

    fn new(input_shape: Vec<usize>, error: String) -> (nn: NeuralNetwork)
        requires
            input_shape@.len() >= 1,
        ensures
            nn.wf(),
            nn.stages() == seq![input_shape@],
            nn.layer_seq() == Seq::<LayerType>::empty(),
            nn.loss_spec() == loss_named(error@),
            nn.batch_size_spec() == 1,
    {
        let mut input_dims: Vec<Vec<usize>> = Vec::new();
        input_dims.push(input_shape);
        let nn = NeuralNetwork {
            input_dims,
            layers: Vec::new(),
            loss: LossKind::parse(error.as_str()),
            batch_size: 1,
        };
        proof {
            assert(nn.stages() =~= seq![input_shape@]);
            assert(nn.layer_seq() =~= Seq::<LayerType>::empty());
        }
        nn
    }

    /// A network whose input is a vector of `input_dim` values, trained with the
    /// loss named `error` (`bce`, `cce`, or `none` for inference only).
    pub fn new1d(input_dim: usize, error: String) -> (nn: NeuralNetwork)
        ensures
            nn.wf(),
            nn.stages() == seq![seq![input_dim]],
            nn.layer_seq() == Seq::<LayerType>::empty(),
            nn.loss_spec() == loss_named(error@),
            nn.batch_size_spec() == 1,
    {
        let shape = vec![input_dim];
        proof {
            assert(shape@ =~= seq![input_dim]);
        }
        NeuralNetwork::new(shape, error)
    }

    /// A network whose input is a matrix of the given shape.
    pub fn new2d(dims: (usize, usize), error: String) -> (nn: NeuralNetwork)
        ensures
            nn.wf(),
            nn.stages() == seq![seq![dims.0, dims.1]],
            nn.layer_seq() == Seq::<LayerType>::empty(),
            nn.loss_spec() == loss_named(error@),
            nn.batch_size_spec() == 1,
    {
        let shape = vec![dims.0, dims.1];
        proof {
            assert(shape@ =~= seq![dims.0, dims.1]);
        }
        NeuralNetwork::new(shape, error)
    }

    /// A network whose input is a three-dimensional tensor of the given shape.
    pub fn new3d(dims: (usize, usize, usize), error: String) -> (nn: NeuralNetwork)
        ensures
            nn.wf(),
            nn.stages() == seq![seq![dims.0, dims.1, dims.2]],
            nn.layer_seq() == Seq::<LayerType>::empty(),
            nn.loss_spec() == loss_named(error@),
            nn.batch_size_spec() == 1,
    {
        let shape = vec![dims.0, dims.1, dims.2];
        proof {
            assert(shape@ =~= seq![dims.0, dims.1, dims.2]);
        }
        NeuralNetwork::new(shape, error)
    }

    /// Sets the batch size; updates are still applied after every example.
    pub fn set_batch_size(&mut self, batch_size: usize)
        ensures
            final(self).batch_size_spec() == batch_size,
            final(self).stages() == old(self).stages(),
            final(self).layer_seq() == old(self).layer_seq(),
            final(self).loss_spec() == old(self).loss_spec(),
    {
        self.batch_size = batch_size;
    }

    fn push_layer(&mut self, layer: LayerType, stage: Vec<usize>)
        requires
            old(self).wf(),
            accepts(layer, old(self).current_stage()),
            stage@ == output_shape(layer, old(self).current_stage()),
        ensures
            final(self).wf(),
            final(self).layer_seq() == old(self).layer_seq().push(layer),
            final(self).stages() == old(self).stages().push(stage@),
            final(self).loss_spec() == old(self).loss_spec(),
            final(self).batch_size_spec() == old(self).batch_size_spec(),
    {
        let ghost old_stages = self.stages();
        let ghost old_layers = self.layer_seq();
        self.layers.push(layer);
        self.input_dims.push(stage);
        proof {
            assert(self.stages() =~= old_stages.push(stage@));
            assert(self.layer_seq() =~= old_layers.push(layer));
            assert forall|i: int| 0 <= i < self.layer_seq().len() implies accepts(
                #[trigger] self.layer_seq()[i],
                self.stages()[i],
            ) && self.stages()[i + 1] == output_shape(self.layer_seq()[i], self.stages()[i]) by {
                if i < old_layers.len() {
                    assert(old_layers[i] == self.layer_seq()[i]);
                }
            }
        }
    }

    /// Appends a dense layer from the current stage's single dimension to
    /// `output_dim` values. Fails, leaving the network unchanged, where
    /// `output_dim` is zero or the current stage has more than one dimension.
    pub fn add_dense(&mut self, output_dim: usize) -> (r: Result<(), NetError>)
        requires
            old(self).wf(),
        ensures
            final(self).wf(),
            output_dim == 0 ==> r == Err::<(), NetError>(NetError::ZeroOutputDim),
            output_dim > 0 && old(self).current_stage().len() > 1 ==> r == Err::<(), NetError>(
                NetError::NotFlat,
            ),
            output_dim > 0 && old(self).current_stage().len() == 1 ==> r is Ok,
            r is Err ==> *final(self) == *old(self),
            r is Ok ==> final(self).layer_seq() == old(self).layer_seq().push(
                LayerType::Dense { input: old(self).current_stage()[0], output: output_dim },
            ) && final(self).stages() == old(self).stages().push(seq![output_dim])
                && final(self).loss_spec() == old(self).loss_spec()
                && final(self).batch_size_spec() == old(self).batch_size_spec(),
    {
        if output_dim == 0 {
            return Err(NetError::ZeroOutputDim);
        }
        let last = self.input_dims.len() - 1;
        proof {
            self.lemma_stages_nonempty(last as int);
        }
        if self.input_dims[last].len() > 1 {
            return Err(NetError::NotFlat);
        }
        let input = self.input_dims[last][0];
        proof {
            assert(self.current_stage() =~= seq![input]);
        }
        let stage = vec![output_dim];
        proof {
            assert(stage@ =~= seq![output_dim]);
        }
        self.push_layer(LayerType::Dense { input, output: output_dim }, stage);
        Ok(())
    }

    /// Appends the activation named `layer_kind`; the stage keeps its shape. Fails,
    /// leaving the network unchanged, where the name is not recognised.
    pub fn add_activation(&mut self, layer_kind: &str) -> (r: Result<(), NetError>)
        requires
            old(self).wf(),
        ensures
            final(self).wf(),
            activation_named(layer_kind@) is None ==> r == Err::<(), NetError>(
                NetError::UnknownActivation,
            ) && *final(self) == *old(self),
            activation_named(layer_kind@) matches Some(k) ==> r is Ok && final(self).layer_seq()
                == old(self).layer_seq().push(LayerType::Activation(k)) && final(self).stages()
                == old(self).stages().push(old(self).current_stage()) && final(self).loss_spec()
                == old(self).loss_spec() && final(self).batch_size_spec()
                == old(self).batch_size_spec(),
    {
        let kind = match ActivationKind::parse(layer_kind) {
            Ok(k) => k,
            Err(e) => {
                return Err(e);
            },
        };
        let last = self.input_dims.len() - 1;
        proof {
            self.lemma_stages_nonempty(last as int);
        }
        let stage = copy_dims(&self.input_dims[last]);
        self.push_layer(LayerType::Activation(kind), stage);
        Ok(())
    }

    /// Appends a layer that flattens the current stage into one vector of as many
    /// values as it has elements. Fails, leaving the network unchanged, where the
    /// current stage has a single dimension, or where its element count does not
    /// fit in a `usize`.
    pub fn add_flatten(&mut self) -> (r: Result<(), NetError>)
        requires
            old(self).wf(),
        ensures
            final(self).wf(),
            old(self).current_stage().len() == 1 ==> r == Err::<(), NetError>(
                NetError::AlreadyFlat,
            ),
            old(self).current_stage().len() > 1 && product(old(self).current_stage())
                > usize::MAX ==> r == Err::<(), NetError>(NetError::SizeOverflow),
            old(self).current_stage().len() > 1 && product(old(self).current_stage())
                <= usize::MAX ==> r is Ok,
            r is Err ==> *final(self) == *old(self),
            r is Ok ==> final(self).stages() == old(self).stages().push(
                seq![product(old(self).current_stage()) as usize],
            ) && final(self).layer_seq().len() == old(self).layer_seq().len() + 1
                && final(self).layer_seq().drop_last() == old(self).layer_seq() && (
            match final(self).layer_seq().last() {
                LayerType::Flatten { shape } => shape@ == old(self).current_stage(),
                _ => false,
            }) && final(self).loss_spec() == old(self).loss_spec()
                && final(self).batch_size_spec() == old(self).batch_size_spec(),
    {
        let last = self.input_dims.len() - 1;
        proof {
            self.lemma_stages_nonempty(last as int);
        }
        if self.input_dims[last].len() == 1 {
            return Err(NetError::AlreadyFlat);
        }
        let elements = match element_count(&self.input_dims[last]) {
            Some(n) => n,
            None => {
                return Err(NetError::SizeOverflow);
            },
        };
        let shape = copy_dims(&self.input_dims[last]);
        let ghost old_layers = self.layer_seq();
        let stage = vec![elements];
        proof {
            assert(stage@ =~= seq![elements]);
        }
        self.push_layer(LayerType::Flatten { shape }, stage);
        proof {
            assert(self.layer_seq().drop_last() =~= old_layers);
        }
        Ok(())
    }

    proof fn lemma_stages_nonempty(&self, i: int)
        requires
            self.wf(),
            0 <= i < self.stages().len(),
        ensures
            self.stages()[i].len() >= 1,
            self.input_dims@.len() == self.stages().len(),
            self.input_dims@[i]@ == self.stages()[i],
        decreases i,
    {
        if i > 0 {
            self.lemma_stages_nonempty(i - 1);
            let l = self.layer_seq()[i - 1];
            assert(accepts(l, self.stages()[i - 1]));
        }
    }
}

/// Whether some softmax layer is not the last one, or is not paired with `cce`.
pub open spec fn softmax_misused(layers: Seq<LayerType>, loss: LossKind) -> bool {
    exists|i: int|
        0 <= i < layers.len() && #[trigger] is_softmax(layers[i]) && (i != layers.len() - 1
            || loss != LossKind::Cce)
}

fn same_dims(a: &Vec<usize>, b: &Vec<usize>) -> (r: bool)
    ensures
        r == (a@ == b@),
{
    if a.len() != b.len() {
        return false;
    }
    let mut i: usize = 0;
    while i < a.len()
        invariant
            i <= a@.len(),
            a@.len() == b@.len(),
            forall|j: int| 0 <= j < i ==> a@[j] == b@[j],
        decreases a@.len() - i,
    {
        if a[i] != b[i] {
            return false;
        }
        i = i + 1;
    }
    proof {
        assert(a@ =~= b@);
    }
    true
}

impl NeuralNetwork {
    /// The result of `check_forward` on an input of shape `input`.
    pub open spec fn forward_check(&self, input: Seq<usize>) -> Result<usize, NetError> {
        if self.layer_seq().len() == 0 {
            Err(NetError::EmptyNetwork)
        } else if input != self.stages()[0] {
            Err(NetError::InputShape)
        } else if self.current_stage().len() != 1 {
            Err(NetError::OutputNotFlat)
        } else {
            Ok(self.current_stage()[0])
        }
    }

    /// The result of `check_loss` on a target of `target_len` values.
    pub open spec fn loss_check(&self, target_len: usize) -> Result<LossKind, NetError> {
        if self.layer_seq().len() == 0 {
            Err(NetError::EmptyNetwork)
        } else if self.current_stage().len() != 1 {
            Err(NetError::OutputNotFlat)
        } else if self.loss_spec() == LossKind::Inference {
            Err(NetError::InferenceOnly)
        } else if self.loss_spec() == LossKind::Unknown {
            Err(NetError::UnknownLoss)
        } else if target_len != self.current_stage()[0] {
            Err(NetError::TargetLength)
        } else if softmax_misused(self.layer_seq(), self.loss_spec()) {
            Err(NetError::SoftmaxCoupling)
        } else {
            Ok(self.loss_spec())
        }
    }

    /// Decides whether a forward pass may run on an input of the given shape, and
    /// if so gives the length of the output vector. A network without layers, an
    /// input of another shape than the network's, and a last stage of more than
    /// one dimension are refused.
    pub fn check_forward(&self, input_shape: &Vec<usize>) -> (r: Result<usize, NetError>)
        requires
            self.wf(),
        ensures
            r == self.forward_check(input_shape@),
    {
        if self.layers.len() == 0 {
            return Err(NetError::EmptyNetwork);
        }
        let last = self.input_dims.len() - 1;
        proof {
            self.lemma_stages_nonempty(0);
            self.lemma_stages_nonempty(last as int);
        }
        if !same_dims(input_shape, &self.input_dims[0]) {
            return Err(NetError::InputShape);
        }
        if self.input_dims[last].len() != 1 {
            return Err(NetError::OutputNotFlat);
        }
        Ok(self.input_dims[last][0])
    }

    /// Decides whether a backward pass, or a loss evaluation, may run against a
    /// target of `target_len` values, and if so with which loss. Besides what
    /// `check_forward` refuses, it refuses the inference-only loss `none`, a loss
    /// name that was not recognised, a target of another length than the output,
    /// and a softmax layer that is not last or not paired with `cce` (its
    /// backward pass is only right as the last layer under that loss).
    pub fn check_loss(&self, target_len: usize) -> (r: Result<LossKind, NetError>)
        requires
            self.wf(),
        ensures
            r == self.loss_check(target_len),
    {
        if self.layers.len() == 0 {
            return Err(NetError::EmptyNetwork);
        }
        let last = self.input_dims.len() - 1;
        proof {
            self.lemma_stages_nonempty(last as int);
        }
        if self.input_dims[last].len() != 1 {
            return Err(NetError::OutputNotFlat);
        }
        match self.loss {
            LossKind::Inference => {
                return Err(NetError::InferenceOnly);
            },
            LossKind::Unknown => {
                return Err(NetError::UnknownLoss);
            },
            _ => {},
        }
        if target_len != self.input_dims[last][0] {
            return Err(NetError::TargetLength);
        }
        let n = self.layers.len();
        let mut i: usize = 0;
        while i < n
            invariant
                n == self.layer_seq().len(),
                i <= n,
                n > 0,
                self.current_stage().len() == 1,
                self.loss_spec() != LossKind::Inference,
                self.loss_spec() != LossKind::Unknown,
                target_len == self.current_stage()[0],
                forall|j: int|
                    0 <= j < i ==> !(#[trigger] is_softmax(self.layer_seq()[j]) && (j != n - 1
                        || self.loss_spec() != LossKind::Cce)),
            decreases n - i,
        {
            let softmax = match &self.layers[i] {
                LayerType::Activation(ActivationKind::Softmax) => true,
                _ => false,
            };
            if softmax {
                if i != n - 1 || self.loss != LossKind::Cce {
                    proof {
                        assert(is_softmax(self.layer_seq()[i as int]));
                    }
                    return Err(NetError::SoftmaxCoupling);
                }
            }
            i = i + 1;
        }
        Ok(self.loss)
    }

    /// Whether the backward pass hands the target itself to the last layer: the
    /// case of a softmax output under the `cce` loss, where the cross-entropy
    /// derivative composed with the softmax Jacobian is `output - target`, which
    /// the softmax layer computes from the target directly.
    pub fn softmax_shortcut(&self) -> (r: bool)
        ensures
            r == (self.layer_seq().len() > 0 && is_softmax(self.layer_seq().last())
                && self.loss_spec() == LossKind::Cce),
    {
        if self.layers.len() == 0 {
            return false;
        }
        let last = match &self.layers[self.layers.len() - 1] {
            LayerType::Activation(ActivationKind::Softmax) => true,
            _ => false,
        };
        last && self.loss == LossKind::Cce
    }

    /// The shape of every stage: the input, then the output of each layer.
    pub fn input_dims(&self) -> (r: &Vec<Vec<usize>>)
        ensures
            r@.map_values(|v: Vec<usize>| v@) == self.stages(),
    {
        &self.input_dims
    }

    /// The layers, in execution order.
    pub fn layers(&self) -> (r: &Vec<LayerType>)
        ensures
            r@ == self.layer_seq(),
    {
        &self.layers
    }

    /// The loss the network is trained with.
    pub fn loss(&self) -> (r: LossKind)
        ensures
            r == self.loss_spec(),
    {
        self.loss
    }

    /// The configured batch size.
    pub fn batch_size(&self) -> (r: usize)
        ensures
            r == self.batch_size_spec(),
    {
        self.batch_size
    }
}

} // verus!
