//! A small feedforward neural network: layers, activation functions, forward
//! inference, single-sample gradient-descent training and the written form
//! of a network, stated and proved over an abstract scalar type.

pub mod activation;
pub mod document;
pub mod error;
pub mod laws;
pub mod layer;
pub mod network;
pub mod scalar;
pub mod training;
