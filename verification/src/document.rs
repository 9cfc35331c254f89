//! The written form of a network: what is saved, and what is read back.
//!
//! A document holds the fields of a network as plain values, with each
//! activation under its name. Turning a document into text and text into a
//! document is left to the caller.

use crate::activation::{tag_of, tagged, Activation};
use crate::error::NetworkError;
use crate::layer::{copy_layers, duplicate, Layer, LayerModel};
use crate::network::{sizes, Network, NetworkModel};
use crate::scalar::Scalar;
use vstd::prelude::*;

verus! {

/// A network as it is written down.
#[derive(Debug)]
pub struct NetworkDocument<T> {
    pub input_size: usize,
    pub hidden_sizes: Vec<usize>,
    pub output_size: usize,
    pub hidden_layers: Vec<Layer<T>>,
    pub hidden_activations: Vec<String>,
    pub output: Layer<T>,
    pub output_activation: String,
}

/// The mathematical content of a [`NetworkDocument`].
pub struct DocumentModel<T> {
    pub input_size: nat,
    pub hidden_sizes: Seq<nat>,
    pub output_size: nat,
    pub hidden_layers: Seq<LayerModel<T>>,
    pub hidden_activations: Seq<Seq<char>>,
    pub output: LayerModel<T>,
    pub output_activation: Seq<char>,
}

impl<T> View for NetworkDocument<T> {
    type V = DocumentModel<T>;

    open spec fn view(&self) -> DocumentModel<T> {
        DocumentModel {
            input_size: self.input_size as nat,
            hidden_sizes: sizes(self.hidden_sizes@),
            output_size: self.output_size as nat,
            hidden_layers: Seq::new(
                self.hidden_layers.len() as nat,
                |i: int| self.hidden_layers[i]@,
            ),
            hidden_activations: Seq::new(
                self.hidden_activations.len() as nat,
                |i: int| self.hidden_activations[i]@,
            ),
            output: self.output@,
            output_activation: self.output_activation@,
        }
    }
}

/// The document that describes a network: its fields as they are, with each
/// activation under its name.
pub open spec fn saved<T>(net: NetworkModel<T>) -> DocumentModel<T> {
    DocumentModel {
        input_size: net.input_size,
        hidden_sizes: net.hidden_sizes,
        output_size: net.output_size,
        hidden_layers: net.hidden_layers,
        hidden_activations: Seq::new(
            net.hidden_activations.len(),
            |i: int| tag_of(net.hidden_activations[i]),
        ),
        output: net.output,
        output_activation: tag_of(net.output_activation),
    }
}

/// The network that a document describes, if it describes one.
pub open spec fn loaded<T: Scalar>(doc: DocumentModel<T>) -> Option<NetworkModel<T>> {
    if doc.readable() {
        Some(doc.network())
    } else {
        None
    }
}

impl<T: Scalar> DocumentModel<T> {
    /// Every activation in the document is the name of one.
    pub open spec fn has_known_tags(self) -> bool {
        &&& tagged(self.output_activation) is Some
        &&& forall|i: int|
            0 <= i < self.hidden_activations.len() ==> tagged(
                #[trigger] self.hidden_activations[i],
            ) is Some
    }

    /// The fields of the document as a network, each name replaced by the
    /// activation it stands for.
    pub open spec fn network(self) -> NetworkModel<T> {
        NetworkModel {
            input_size: self.input_size,
            hidden_sizes: self.hidden_sizes,
            output_size: self.output_size,
            hidden_layers: self.hidden_layers,
            hidden_activations: Seq::new(
                self.hidden_activations.len(),
                |i: int| tagged(self.hidden_activations[i]).unwrap(),
            ),
            output: self.output,
            output_activation: tagged(self.output_activation).unwrap(),
        }
    }

    /// The document describes a network: its activations exist, and its
    /// parts fit together.
    pub open spec fn readable(self) -> bool {
        self.has_known_tags() && self.network().well_formed()
    }
}

impl<T: Scalar> Network<T> {
    /// The document that describes the network.
    pub fn save(&self) -> (doc: NetworkDocument<T>)
        ensures
            doc@ == saved(self@),
    {
        let mut hidden_activations: Vec<String> = Vec::new();
        let mut j: usize = 0;
        while j < self.hidden_activations.len()
            invariant
                j <= self.hidden_activations.len(),
                hidden_activations.len() == j,
                forall|a: int|
                    0 <= a < j ==> (#[trigger] hidden_activations[a])@ == tag_of(
                        self.hidden_activations[a],
                    ),
            decreases self.hidden_activations.len() - j,
        {
            hidden_activations.push(self.hidden_activations[j].tag());
            j += 1;
        }
        let doc = NetworkDocument {
            input_size: self.input_size,
            hidden_sizes: duplicate(&self.hidden_sizes),
            output_size: self.output_size,
            hidden_layers: copy_layers(&self.hidden_layers),
            hidden_activations,
            output: self.output.clone(),
            output_activation: self.output_activation.tag(),
        };
        proof {
            assert(doc@.hidden_layers =~= saved(self@).hidden_layers);
            assert(doc@.hidden_activations =~= saved(self@).hidden_activations);
        }
        doc
    }

    /// The network that the document describes.
    ///
    /// Fails with `Serialization` where the document names an activation
    /// that does not exist, or where the parts it holds do not fit
    /// together.
    pub fn load(doc: NetworkDocument<T>) -> (r: Result<Self, NetworkError>)
        ensures
            r is Ok <==> doc@.readable(),
            r matches Err(e) ==> e == NetworkError::Serialization,
            r matches Ok(net) ==> Some(net@) == loaded(doc@),
    {
        let ghost model = doc@;
        let NetworkDocument {
            input_size,
            hidden_sizes,
            output_size,
            hidden_layers,
            hidden_activations: hidden_tags,
            output,
            output_activation: output_tag,
        } = doc;
        let output_activation = match Activation::from_tag(&output_tag) {
            Some(a) => a,
            None => {
                return Err(NetworkError::Serialization);
            },
        };
        let mut hidden_activations: Vec<Activation> = Vec::new();
        let mut i: usize = 0;
        while i < hidden_tags.len()
            invariant
                i <= hidden_tags.len(),
                model == doc@,
                tagged(model.output_activation) == Some(output_activation),
                hidden_tags.len() == model.hidden_activations.len(),
                forall|a: int|
                    0 <= a < hidden_tags.len() ==> (#[trigger] hidden_tags[a])@
                        == model.hidden_activations[a],
                hidden_activations.len() == i,
                forall|a: int|
                    0 <= a < i ==> tagged(model.hidden_activations[a]) == Some(
                        #[trigger] hidden_activations[a],
                    ),
            decreases hidden_tags.len() - i,
        {
            match Activation::from_tag(&hidden_tags[i]) {
                Some(a) => {
                    hidden_activations.push(a);
                },
                None => {
                    assert(tagged(model.hidden_activations[i as int]) is None);
                    return Err(NetworkError::Serialization);
                },
            }
            i += 1;
        }
        let net = Network {
            input_size,
            hidden_sizes,
            output_size,
            hidden_layers,
            hidden_activations,
            output,
            output_activation,
        };
        proof {
            assert forall|a: int| 0 <= a < model.hidden_activations.len() implies tagged(
                #[trigger] model.hidden_activations[a],
            ) is Some by {
                assert(tagged(model.hidden_activations[a]) == Some(net.hidden_activations[a]));
            }
            assert(net@.hidden_layers =~= model.network().hidden_layers);
            assert(net@.hidden_activations =~= model.network().hidden_activations);
            assert(net@ == model.network());
        }
        if net.is_well_formed() {
            Ok(net)
        } else {
            Err(NetworkError::Serialization)
        }
    }
}

} // verus!
