use feedforward::error::NetworkError;
use feedforward::layer::Layer;
use feedforward::scalar::Scalar;

#[derive(Clone, Copy, Debug, PartialEq)]
struct Real(f64);

impl Scalar for Real {
    fn zero() -> Self {
        Real(0.0)
    }

    fn one() -> Self {
        Real(1.0)
    }

    fn from_count(n: usize) -> Self {
        Real(n as f64)
    }

    fn plus(self, rhs: Self) -> Self {
        Real(self.0 + rhs.0)
    }

    fn minus(self, rhs: Self) -> Self {
        Real(self.0 - rhs.0)
    }

    fn times(self, rhs: Self) -> Self {
        Real(self.0 * rhs.0)
    }

    fn over(self, rhs: Self) -> Self {
        Real(self.0 / rhs.0)
    }

    fn negated(self) -> Self {
        Real(-self.0)
    }

    fn exp(self) -> Self {
        Real(self.0.exp())
    }

    fn tanh(self) -> Self {
        Real(self.0.tanh())
    }

    fn max(self, rhs: Self) -> Self {
        Real(self.0.max(rhs.0))
    }

    fn exceeds(self, rhs: Self) -> bool {
        self.0 > rhs.0
    }
}

fn reals(values: &[f64]) -> Vec<Real> {
    values.iter().map(|&x| Real(x)).collect()
}

#[test]
fn layer_parameters_are_rows_then_biases() {
    let layer = Layer::new(2, 3, &reals(&[1.0, 2.0, 3.0, 4.0, 5.0, 6.0, 7.0, 8.0, 9.0])).unwrap();
    assert_eq!(layer.weights, vec![reals(&[1.0, 2.0]), reals(&[3.0, 4.0]), reals(&[5.0, 6.0])]);
    assert_eq!(layer.biases, reals(&[7.0, 8.0, 9.0]));
}

#[test]
fn layer_with_too_few_or_too_many_parameters_is_refused() {
    let short = Layer::new(2, 3, &reals(&[0.0; 8]));
    assert!(matches!(short, Err(NetworkError::Configuration)));
    let long = Layer::new(2, 3, &reals(&[0.0; 10]));
    assert!(matches!(long, Err(NetworkError::Configuration)));
}

#[test]
fn layer_without_units_has_no_parameters() {
    let layer = Layer::new(4, 0, &reals(&[])).unwrap();
    assert!(layer.weights.is_empty());
    assert!(layer.biases.is_empty());
    assert_eq!(layer.forward(&reals(&[1.0, 2.0, 3.0, 4.0])), Ok(reals(&[])));
}

#[test]
fn layer_parameter_count_is_weights_plus_biases() {
    assert_eq!(Layer::<Real>::parameter_count(2, 3), Some(9));
    assert_eq!(Layer::<Real>::parameter_count(0, 5), Some(5));
    assert_eq!(Layer::<Real>::parameter_count(7, 0), Some(0));
    assert_eq!(Layer::<Real>::parameter_count(usize::MAX, 2), None);
    assert_eq!(Layer::<Real>::parameter_count(0, usize::MAX), Some(usize::MAX));
    assert_eq!(Layer::<Real>::parameter_count(1, usize::MAX), None);
}

#[test]
fn layer_forward_is_dot_product_plus_bias() {
    let layer = Layer::new(2, 2, &reals(&[1.0, 2.0, 3.0, 4.0, 0.5, -0.5])).unwrap();
    assert_eq!(layer.forward(&reals(&[1.0, 1.0])), Ok(reals(&[3.5, 6.5])));
    assert_eq!(layer.forward(&reals(&[2.0, -1.0])), Ok(reals(&[0.5, 1.5])));
}

#[test]
fn layer_forward_adds_products_in_order() {
    let w = [0.1, 0.2, 0.3];
    let x = [0.7, 1.1, 1.3];
    let layer = Layer::new(3, 1, &reals(&[w[0], w[1], w[2], 0.05])).unwrap();
    let expected = ((0.0 + w[0] * x[0]) + w[1] * x[1]) + w[2] * x[2] + 0.05;
    assert_eq!(layer.forward(&reals(&x)), Ok(reals(&[expected])));
}

#[test]
fn layer_forward_refuses_an_input_of_the_wrong_length() {
    let layer = Layer::new(2, 2, &reals(&[1.0, 2.0, 3.0, 4.0, 0.5, -0.5])).unwrap();
    assert_eq!(layer.forward(&reals(&[1.0])), Err(NetworkError::Configuration));
    assert_eq!(layer.forward(&reals(&[1.0, 2.0, 3.0])), Err(NetworkError::Configuration));
}

#[test]
fn layer_forward_refuses_a_ragged_layer() {
    let layer =
        Layer { weights: vec![reals(&[1.0, 2.0]), reals(&[3.0])], biases: reals(&[0.0, 0.0]) };
    assert!(!layer.accepts(2));
    assert_eq!(layer.forward(&reals(&[1.0, 1.0])), Err(NetworkError::Configuration));
    let lopsided = Layer { weights: vec![reals(&[1.0, 2.0])], biases: reals(&[0.0, 0.0]) };
    assert!(!lopsided.accepts(2));
    assert_eq!(lopsided.forward(&reals(&[1.0, 1.0])), Err(NetworkError::Configuration));
}

#[test]
fn layer_accepts_only_its_input_length() {
    let layer = Layer::new(2, 2, &reals(&[1.0, 2.0, 3.0, 4.0, 0.5, -0.5])).unwrap();
    assert!(layer.accepts(2));
    assert!(!layer.accepts(1));
    assert!(!layer.accepts(3));
}
