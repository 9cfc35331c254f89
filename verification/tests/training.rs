use feedforward::activation::Activation;
use feedforward::error::NetworkError;
use feedforward::network::Network;
use feedforward::scalar::Scalar;

#[derive(Clone, Copy, Debug, PartialEq)]
struct Real(f64);

impl Scalar for Real {
    fn zero() -> Self {
        Real(0.0)
    }

    fn one() -> Self {
        Real(1.0)
    }

    fn from_count(n: usize) -> Self {
        Real(n as f64)
    }

    fn plus(self, rhs: Self) -> Self {
        Real(self.0 + rhs.0)
    }

    fn minus(self, rhs: Self) -> Self {
        Real(self.0 - rhs.0)
    }

    fn times(self, rhs: Self) -> Self {
        Real(self.0 * rhs.0)
    }

    fn over(self, rhs: Self) -> Self {
        Real(self.0 / rhs.0)
    }

    fn negated(self) -> Self {
        Real(-self.0)
    }

    fn exp(self) -> Self {
        Real(self.0.exp())
    }

    fn tanh(self) -> Self {
        Real(self.0.tanh())
    }

    fn max(self, rhs: Self) -> Self {
        Real(self.0.max(rhs.0))
    }

    fn exceeds(self, rhs: Self) -> bool {
        self.0 > rhs.0
    }
}

fn reals(values: &[f64]) -> Vec<Real> {
    values.iter().map(|&x| Real(x)).collect()
}

fn seeded() -> Vec<Real> {
    (0..25).map(|i| Real((((i * 37) % 21) as f64 - 10.0) / 10.0)).collect()
}

fn two_three_three_one() -> Network<Real> {
    Network::new(
        2,
        vec![3, 3],
        1,
        vec![Activation::ReLU, Activation::Tanh],
        Activation::Sigmoid,
        &seeded(),
    )
    .unwrap()
}

fn parameters(net: &Network<Real>) -> Vec<f64> {
    let mut out = Vec::new();
    for layer in net.hidden_layers.iter().chain(std::iter::once(&net.output)) {
        for row in &layer.weights {
            out.extend(row.iter().map(|r| r.0));
        }
        out.extend(layer.biases.iter().map(|r| r.0));
    }
    out
}

fn bits(values: &[f64]) -> Vec<u64> {
    values.iter().map(|x| x.to_bits()).collect()
}

fn three_samples() -> (Vec<Vec<Real>>, Vec<Vec<Real>>) {
    (
        vec![reals(&[0.5, -0.2]), reals(&[1.0, 0.0]), reals(&[0.0, 1.0])],
        vec![reals(&[1.0]), reals(&[0.0]), reals(&[0.0])],
    )
}

#[test]
fn train_updates_a_single_layer_by_the_rule() {
    let (w, b, x, t, lr) = (2.0_f64, 1.0_f64, 3.0_f64, 5.0_f64, 0.1_f64);
    let mut net =
        Network::new(1, vec![], 1, vec![], Activation::ReLU, &reals(&[w, b])).unwrap();
    let loss = net.train(&reals(&[x]), &reals(&[t]), Real(lr)).unwrap();
    // raw output 7, activated 7, error 2, slope 1.
    assert_eq!(loss, Real(4.0));
    let delta = (7.0 - t) * 1.0;
    assert_eq!(net.output.weights, vec![reals(&[w - (lr * delta) * x])]);
    assert_eq!(net.output.biases, reals(&[b - lr * delta]));
}

#[test]
fn train_leaves_out_the_factor_two_over_n() {
    // Two outputs with errors 1 and 3: the loss is the mean, the deltas are
    // the plain differences.
    let mut net = Network::new(
        1,
        vec![],
        2,
        vec![],
        Activation::ReLU,
        &reals(&[1.0, 1.0, 1.0, 3.0]),
    )
    .unwrap();
    let loss = net.train(&reals(&[1.0]), &reals(&[1.0, 1.0]), Real(0.5)).unwrap();
    assert_eq!(loss, Real((1.0 + 9.0) / 2.0));
    assert_eq!(net.output.weights, vec![reals(&[1.0 - 0.5 * 1.0]), reals(&[1.0 - 0.5 * 3.0])]);
    assert_eq!(net.output.biases, reals(&[1.0 - 0.5 * 1.0, 3.0 - 0.5 * 3.0]));
}

#[test]
fn train_sends_the_error_back_through_updated_weights() {
    // 1 -> 1 -> 1, all weights 1, all biases 0, ReLU on its linear side.
    let mut net = Network::new(
        1,
        vec![1],
        1,
        vec![Activation::ReLU],
        Activation::ReLU,
        &reals(&[1.0, 0.0, 1.0, 0.0]),
    )
    .unwrap();
    let loss = net.train(&reals(&[1.0]), &reals(&[0.0]), Real(0.5)).unwrap();
    assert_eq!(loss, Real(1.0));
    // Output layer: delta 1, weight 1 - 0.5 = 0.5, bias -0.5.
    assert_eq!(net.output.weights, vec![reals(&[0.5])]);
    assert_eq!(net.output.biases, reals(&[-0.5]));
    // Hidden layer: delta is the updated weight 0.5 times 1, not the old 1.
    assert_eq!(net.hidden_layers[0].weights, vec![reals(&[0.75])]);
    assert_eq!(net.hidden_layers[0].biases, reals(&[-0.25]));
}

#[test]
fn train_reports_the_loss_before_the_update() {
    let mut net = two_three_three_one();
    let x = reals(&[0.5, -0.2]);
    let t = reals(&[1.0]);
    let before = net.forward(&x).unwrap();
    let expected = Network::mse_loss(&before, &t).unwrap();
    let loss = net.train(&x, &t, Real(0.1)).unwrap();
    assert_eq!(loss, expected);
    assert_ne!(net.forward(&x).unwrap(), before);
}

#[test]
fn train_keeps_the_shape_of_the_network() {
    let mut net = two_three_three_one();
    net.train(&reals(&[0.5, -0.2]), &reals(&[1.0]), Real(0.1)).unwrap();
    assert!(net.is_well_formed());
    assert_eq!(net.input_size, 2);
    assert_eq!(net.hidden_sizes, vec![3, 3]);
    assert_eq!(net.output_size, 1);
    assert_eq!(net.hidden_activations, vec![Activation::ReLU, Activation::Tanh]);
    assert_eq!(net.output_activation, Activation::Sigmoid);
    assert_eq!(parameters(&net).len(), 25);
}

#[test]
fn train_twice_from_the_same_state_is_bit_identical() {
    let mut first = two_three_three_one();
    let mut second = two_three_three_one();
    let x = reals(&[0.5, -0.2]);
    let t = reals(&[1.0]);
    for _ in 0..10 {
        let a = first.train(&x, &t, Real(0.1)).unwrap();
        let b = second.train(&x, &t, Real(0.1)).unwrap();
        assert_eq!(a.0.to_bits(), b.0.to_bits());
        assert_eq!(bits(&parameters(&first)), bits(&parameters(&second)));
    }
    assert_ne!(bits(&parameters(&first)), bits(&parameters(&two_three_three_one())));
}

#[test]
fn train_refuses_a_sample_that_does_not_fit() {
    let mut net = two_three_three_one();
    let before = parameters(&net);
    let r = net.train(&reals(&[0.5]), &reals(&[1.0]), Real(0.1));
    assert_eq!(r, Err(NetworkError::Configuration));
    let r = net.train(&reals(&[0.5, -0.2, 0.0]), &reals(&[1.0]), Real(0.1));
    assert_eq!(r, Err(NetworkError::Configuration));
    let r = net.train(&reals(&[0.5, -0.2]), &reals(&[1.0, 0.0]), Real(0.1));
    assert_eq!(r, Err(NetworkError::Configuration));
    let r = net.train(&reals(&[0.5, -0.2]), &reals(&[]), Real(0.1));
    assert_eq!(r, Err(NetworkError::Configuration));
    assert_eq!(bits(&parameters(&net)), bits(&before));
}

#[test]
fn train_refuses_a_network_whose_parts_do_not_fit() {
    let mut net = two_three_three_one();
    net.hidden_layers[0].biases.pop();
    let r = net.train(&reals(&[0.5, -0.2]), &reals(&[1.0]), Real(0.1));
    assert_eq!(r, Err(NetworkError::Configuration));
}

#[test]
fn train_on_an_empty_output_is_degenerate() {
    let mut net =
        Network::new(2, vec![], 0, vec![], Activation::Sigmoid, &reals(&[])).unwrap();
    let r = net.train(&reals(&[0.5, -0.2]), &reals(&[]), Real(0.1));
    assert_eq!(r, Err(NetworkError::ArithmeticDegenerate));
    let r = net.train(&reals(&[0.5]), &reals(&[]), Real(0.1));
    assert_eq!(r, Err(NetworkError::Configuration));
}

#[test]
fn fit_without_epochs_changes_nothing() {
    let mut net = two_three_three_one();
    let before = parameters(&net);
    let (inputs, targets) = three_samples();
    assert_eq!(net.fit(&inputs, &targets, 0, Real(0.1)), Ok(vec![]));
    assert_eq!(bits(&parameters(&net)), bits(&before));
}

#[test]
fn fit_without_epochs_looks_at_no_shape() {
    let mut net = two_three_three_one();
    let before = parameters(&net);
    let (mut inputs, mut targets) = three_samples();
    inputs[1] = reals(&[1.0, 0.0, 2.0]);
    assert_eq!(net.fit(&inputs, &targets, 0, Real(0.1)), Ok(vec![]));
    targets[2] = reals(&[]);
    assert_eq!(net.fit(&inputs, &targets, 0, Real(0.1)), Ok(vec![]));
    assert_eq!(bits(&parameters(&net)), bits(&before));
    // The same samples are refused as soon as a step is due.
    assert_eq!(net.fit(&inputs, &targets, 1, Real(0.1)), Err(NetworkError::Configuration));
    assert_eq!(bits(&parameters(&net)), bits(&before));
}

#[test]
fn fit_without_epochs_takes_a_network_whose_parts_do_not_fit() {
    let mut net = two_three_three_one();
    net.hidden_layers[0].biases.pop();
    let before = parameters(&net);
    let (inputs, targets) = three_samples();
    assert_eq!(net.fit(&inputs, &targets, 0, Real(0.1)), Ok(vec![]));
    assert_eq!(bits(&parameters(&net)), bits(&before));
    assert_eq!(net.fit(&inputs, &targets, 1, Real(0.1)), Err(NetworkError::Configuration));
    assert_eq!(bits(&parameters(&net)), bits(&before));
}

#[test]
fn fit_without_samples_looks_at_no_shape() {
    let mut net = two_three_three_one();
    net.hidden_activations.pop();
    let before = parameters(&net);
    let losses = net.fit(&vec![], &vec![], 3, Real(0.1)).unwrap();
    assert_eq!(losses.len(), 3);
    assert!(losses.iter().all(|l| l.0.is_nan()));
    assert_eq!(bits(&parameters(&net)), bits(&before));
}

#[test]
fn fit_refuses_unpaired_samples() {
    let mut net = two_three_three_one();
    let before = parameters(&net);
    let (inputs, mut targets) = three_samples();
    targets.pop();
    assert_eq!(net.fit(&inputs, &targets, 5, Real(0.1)), Err(NetworkError::Configuration));
    assert_eq!(net.fit(&inputs, &targets, 0, Real(0.1)), Err(NetworkError::Configuration));
    assert_eq!(bits(&parameters(&net)), bits(&before));
}

#[test]
fn fit_refuses_a_sample_that_does_not_fit_before_training() {
    let mut net = two_three_three_one();
    let before = parameters(&net);
    let (mut inputs, targets) = three_samples();
    inputs[2] = reals(&[0.0, 1.0, 2.0]);
    assert_eq!(net.fit(&inputs, &targets, 5, Real(0.1)), Err(NetworkError::Configuration));
    assert_eq!(bits(&parameters(&net)), bits(&before));
    let (inputs, mut targets) = three_samples();
    targets[1] = reals(&[]);
    assert_eq!(net.fit(&inputs, &targets, 5, Real(0.1)), Err(NetworkError::Configuration));
    assert_eq!(bits(&parameters(&net)), bits(&before));
}

#[test]
fn fit_on_an_empty_output_is_degenerate_once_a_step_is_due() {
    let mut net =
        Network::new(2, vec![], 0, vec![], Activation::Sigmoid, &reals(&[])).unwrap();
    let inputs = vec![reals(&[0.5, -0.2])];
    let targets = vec![reals(&[])];
    assert_eq!(
        net.fit(&inputs, &targets, 3, Real(0.1)),
        Err(NetworkError::ArithmeticDegenerate)
    );
    assert_eq!(net.fit(&inputs, &targets, 0, Real(0.1)), Ok(vec![]));
}

#[test]
fn fit_averages_the_losses_of_an_epoch() {
    let (inputs, targets) = three_samples();
    let mut fitted = two_three_three_one();
    let losses = fitted.fit(&inputs, &targets, 2, Real(0.1)).unwrap();
    let mut stepped = two_three_three_one();
    let mut expected = Vec::new();
    for _ in 0..2 {
        let mut total = 0.0;
        for (x, t) in inputs.iter().zip(targets.iter()) {
            total += stepped.train(x, t, Real(0.1)).unwrap().0;
        }
        expected.push(Real(total / 3.0));
    }
    assert_eq!(losses, expected);
    assert_eq!(bits(&parameters(&fitted)), bits(&parameters(&stepped)));
}

#[test]
fn fit_without_samples_divides_zero_by_zero() {
    let mut net = two_three_three_one();
    let before = parameters(&net);
    let losses = net.fit(&vec![], &vec![], 4, Real(0.1)).unwrap();
    assert_eq!(losses.len(), 4);
    assert!(losses.iter().all(|l| l.0.is_nan()));
    assert_eq!(bits(&parameters(&net)), bits(&before));
}

#[test]
fn repeated_training_fits_a_single_sample() {
    let mut net = two_three_three_one();
    let x = reals(&[0.5, -0.2]);
    let t = reals(&[1.0]);
    let mut losses = Vec::new();
    for _ in 0..1000 {
        losses.push(net.train(&x, &t, Real(0.1)).unwrap().0);
    }
    assert!(losses[999] < losses[0]);
    let prediction = net.predict(&x).unwrap();
    assert_eq!(prediction.len(), 1);
    assert!(prediction[0].0 > 0.9);
}

#[test]
fn fit_over_three_samples_brings_the_loss_down() {
    let mut net = two_three_three_one();
    let (inputs, targets) = three_samples();
    let losses: Vec<f64> =
        net.fit(&inputs, &targets, 200, Real(0.1)).unwrap().iter().map(|l| l.0).collect();
    assert_eq!(losses.len(), 200);
    let window = 20;
    let averages: Vec<f64> = (0..=losses.len() - window)
        .map(|i| losses[i..i + window].iter().sum::<f64>() / window as f64)
        .collect();
    for pair in averages.windows(2) {
        assert!(pair[1] <= pair[0]);
    }
    assert!(losses[199] < losses[0]);
}

#[test]
fn a_clone_has_the_same_parameters_and_its_own_storage() {
    let net = two_three_three_one();
    let mut copy = net.clone();
    assert_eq!(bits(&parameters(&copy)), bits(&parameters(&net)));
    assert_eq!(copy.hidden_sizes, net.hidden_sizes);
    assert_eq!(copy.hidden_activations, net.hidden_activations);
    assert_eq!(copy.output_activation, net.output_activation);
    let x = reals(&[0.5, -0.2]);
    assert_eq!(copy.forward(&x), net.forward(&x));
    copy.train(&x, &reals(&[1.0]), Real(0.1)).unwrap();
    assert_ne!(bits(&parameters(&copy)), bits(&parameters(&net)));
    assert_eq!(bits(&parameters(&net)), bits(&parameters(&two_three_three_one())));
}
