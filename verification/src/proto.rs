//! The messages of the label protocol.

use crate::storage::{labels_view, layer_of, LabelView};
use vstd::prelude::*;

verus! {

/// The identifier of a data layer: 160 bits, carried as five 32-bit words.
///
/// The words are never interpreted. Two identifiers are the same layer exactly
/// when all five words agree.
#[derive(Clone, Copy, Debug, PartialEq, Eq, Structural)]
pub struct LayerId {
    pub v1: u32,
    pub v2: u32,
    pub v3: u32,
    pub v4: u32,
    pub v5: u32,
}

impl LayerId {
    /// The identifier made of the first five words of `words`.
    pub open spec fn from_words(words: Seq<u32>) -> LayerId {
        LayerId { v1: words[0], v2: words[1], v3: words[2], v4: words[3], v5: words[4] }
    }

    /// The five words in order.
    pub open spec fn words(self) -> Seq<u32> {
        seq![self.v1, self.v2, self.v3, self.v4, self.v5]
    }

    /// Packs five words into an identifier.
    pub fn new(id: [u32; 5]) -> (layer: Self)
        ensures
            layer == LayerId::from_words(id@),
            layer.words() == id@,
    {
        let layer = Self { v1: id[0], v2: id[1], v3: id[2], v4: id[3], v5: id[4] };
        assert(layer.words() =~= id@);
        layer
    }

    /// The five words of the identifier, in order.
    pub fn id(&self) -> (id: [u32; 5])
        ensures
            id@ == self.words(),
            LayerId::from_words(id@) == *self,
    {
        let id = [self.v1, self.v2, self.v3, self.v4, self.v5];
        assert(id@ =~= self.words());
        id
    }
}

/// Packs an optional identifier for the wire.
pub fn layer_to_wire(id: Option<[u32; 5]>) -> (layer: Option<LayerId>)
    ensures
        layer == layer_of(id),
{
    match id {
        Some(words) => Some(LayerId::new(words)),
        None => None,
    }
}

/// Unpacks an optional identifier that came over the wire.
pub fn layer_from_wire(layer: &Option<LayerId>) -> (id: Option<[u32; 5]>)
    ensures
        layer_of(id) == *layer,
{
    match layer {
        Some(wire) => Some(wire.id()),
        None => None,
    }
}

/// A label on the wire.
#[derive(Clone, Debug, PartialEq, Eq)]
pub struct Label {
    pub name: String,
    pub layer: Option<LayerId>,
    pub version: u64,
}

impl View for Label {
    type V = LabelView;

    open spec fn view(&self) -> LabelView {
        LabelView { name: self.name@, layer: self.layer, version: self.version }
    }
}

impl Label {
    /// The wire form of the label with this name, layer and version.
    pub fn new(name: String, layer: Option<[u32; 5]>, version: u64) -> (label: Self)
        ensures
            label@ == (LabelView { name: name@, layer: layer_of(layer), version }),
    {
        Self { name, layer: layer_to_wire(layer), version }
    }
}

impl Label {
    /// The wire form of a label that a store holds.
    pub fn from_stored(label: &crate::storage::Label) -> (wire: Self)
        ensures
            wire@ == label@,
    {
        Label::new(label.name.clone(), label.layer, label.version)
    }

    /// The label that this wire form stands for.
    pub fn to_stored(&self) -> (label: crate::storage::Label)
        ensures
            label@ == self@,
    {
        crate::storage::Label {
            name: self.name.clone(),
            layer: layer_from_wire(&self.layer),
            version: self.version,
        }
    }
}

/// The labels of a list on the wire, each seen through its view.
pub open spec fn wire_labels_view(labels: Seq<Label>) -> Seq<LabelView> {
    labels.map_values(|label: Label| label@)
}

/// The wire forms of the labels of a list, in the same order.
pub fn labels_to_wire(labels: &Vec<crate::storage::Label>) -> (wire: Vec<Label>)
    ensures
        wire_labels_view(wire@) == labels_view(labels@),
{
    let mut wire: Vec<Label> = Vec::new();
    let mut i: usize = 0;
    while i < labels.len()
        invariant
            i <= labels.len(),
            wire.len() == i,
            forall|k: int| 0 <= k < i ==> (#[trigger] wire[k])@ == labels[k]@,
        decreases labels.len() - i,
    {
        wire.push(Label::from_stored(&labels[i]));
        i += 1;
    }
    assert(wire_labels_view(wire@) =~= labels_view(labels@));
    wire
}

/// The labels that a list on the wire stands for, in the same order.
pub fn labels_from_wire(wire: &Vec<Label>) -> (labels: Vec<crate::storage::Label>)
    ensures
        labels_view(labels@) == wire_labels_view(wire@),
{
    let mut labels: Vec<crate::storage::Label> = Vec::new();
    let mut i: usize = 0;
    while i < wire.len()
        invariant
            i <= wire.len(),
            labels.len() == i,
            forall|k: int| 0 <= k < i ==> (#[trigger] labels[k])@ == wire[k]@,
        decreases wire.len() - i,
    {
        labels.push(wire[i].to_stored());
        i += 1;
    }
    assert(labels_view(labels@) =~= wire_labels_view(wire@));
    labels
}

/// Asks for every label.
#[derive(Clone, Debug, PartialEq, Eq)]
pub struct GetLabelsRequest {
    /// Reserved. Always empty, never read.
    pub domain: String,
}

/// Every label that the store holds.
#[derive(Clone, Debug, PartialEq, Eq)]
pub struct GetLabelsResponse {
    pub label: Vec<Label>,
}

impl View for GetLabelsResponse {
    type V = Seq<LabelView>;

    open spec fn view(&self) -> Seq<LabelView> {
        wire_labels_view(self.label@)
    }
}

/// Asks for one label by name.
#[derive(Clone, Debug, PartialEq, Eq)]
pub struct GetLabelRequest {
    /// Reserved. Always empty, never read.
    pub domain: String,
    pub name: String,
}

/// The layer and version of the label that was asked for.
#[derive(Clone, Copy, Debug, PartialEq, Eq, Structural)]
pub struct GetLabelResponse {
    pub layer: Option<LayerId>,
    pub version: u64,
}

impl GetLabelResponse {
    /// The response for a label that points at `id` and stands at `version`.
    pub fn new(id: Option<[u32; 5]>, version: u64) -> (response: Self)
        ensures
            response == (GetLabelResponse { layer: layer_of(id), version }),
    {
        Self { layer: layer_to_wire(id), version }
    }

    /// The layer that the label points at, if any.
    pub fn id(&self) -> (id: Option<[u32; 5]>)
        ensures
            layer_of(id) == self.layer,
    {
        layer_from_wire(&self.layer)
    }
}

/// Asks to create a label.
#[derive(Clone, Debug, PartialEq, Eq)]
pub struct CreateLabelRequest {
    /// Reserved. Always empty, never read.
    pub domain: String,
    pub name: String,
}

/// Whether the label was created. `false` means that the name was taken.
#[derive(Clone, Copy, Debug, PartialEq, Eq, Structural)]
pub struct CreateLabelResponse {
    pub has_been_created: bool,
}

/// Asks to move a label to `new_layer`, provided that it still is as `label`
/// says.
#[derive(Clone, Debug, PartialEq, Eq)]
pub struct SetLabelRequest {
    /// Reserved. Always empty, never read.
    pub domain: String,
    /// The label as the caller last saw it. A request without it is invalid.
    pub label: Option<Label>,
    pub new_layer: Option<LayerId>,
}

/// Whether the label was moved, and the version at which it stands now.
#[derive(Clone, Copy, Debug, PartialEq, Eq, Structural)]
pub struct SetLabelResponse {
    pub has_been_set: bool,
    pub version: u64,
}

/// Asks to delete a label.
#[derive(Clone, Debug, PartialEq, Eq)]
pub struct DeleteLabelRequest {
    /// Reserved. Always empty, never read.
    pub domain: String,
    pub name: String,
}

/// Whether a label was deleted. `false` means that there was none.
#[derive(Clone, Copy, Debug, PartialEq, Eq, Structural)]
pub struct DeleteLabelResponse {
    pub has_been_deleted: bool,
}

} // verus!
