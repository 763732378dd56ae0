//! What a label store is, stated without any machine: a finite map from names
//! to labels, and five operations on it.
//!
//! Every store that the adapter is put in front of is expected to behave as
//! this model does. The in-memory store of this crate is proved to.

use crate::proto::LayerId;
use crate::storage::{CreateOutcomeView, LabelView, StoreErrorView, SwapOutcomeView};
use vstd::prelude::*;

verus! {

/// The labels of a store, by name.
pub struct StoreModel {
    pub labels: Map<Seq<char>, LabelView>,
}

/// The text with which a store refuses to move a label whose version is the
/// largest that 64 bits hold.
pub open spec fn version_exhausted_text() -> Seq<char> {
    "label version cannot be increased"@
}

impl StoreModel {
    /// Each label is filed under its own name.
    pub open spec fn wf(self) -> bool {
        forall|name: Seq<char>| #[trigger]
            self.labels.contains_key(name) ==> self.labels[name].name == name
    }

    /// The store without labels.
    pub open spec fn empty() -> StoreModel {
        StoreModel { labels: Map::empty() }
    }

    /// Whether a label of this name exists.
    pub open spec fn holds(self, name: Seq<char>) -> bool {
        self.labels.contains_key(name)
    }

    /// The label of this name, if it exists.
    pub open spec fn get(self, name: Seq<char>) -> Option<LabelView> {
        if self.holds(name) {
            Some(self.labels[name])
        } else {
            None
        }
    }

    /// Whether `listing` names every label of the store once, in any order.
    pub open spec fn lists(self, listing: Seq<LabelView>) -> bool {
        &&& forall|i: int| 0 <= i < listing.len() ==> self.get(#[trigger] listing[i].name) == Some(listing[i])
        &&& forall|name: Seq<char>| #[trigger]
            self.holds(name) ==> exists|i: int| 0 <= i < listing.len() && #[trigger] listing[i].name == name
        &&& forall|i: int, j: int|
            0 <= i < j < listing.len() ==> #[trigger] listing[i].name != #[trigger] listing[j].name
    }

    /// The label that a creation under `name` files.
    pub open spec fn fresh(name: Seq<char>) -> LabelView {
        LabelView { name, layer: None, version: 0 }
    }

    /// What the store answers to a creation.
    pub open spec fn create_outcome(self, name: Seq<char>) -> CreateOutcomeView {
        if self.holds(name) {
            CreateOutcomeView::AlreadyExists
        } else {
            CreateOutcomeView::Created(Self::fresh(name))
        }
    }

    /// The store after a creation.
    pub open spec fn create(self, name: Seq<char>) -> StoreModel {
        if self.holds(name) {
            self
        } else {
            StoreModel { labels: self.labels.insert(name, Self::fresh(name)) }
        }
    }

    /// What the store answers to a compare-and-swap. The version is the only
    /// token that is compared: the swap applies exactly when the label exists
    /// and stands at the version that the caller expects. A label at the
    /// largest version cannot move on; there the store fails.
    pub open spec fn swap_outcome(
        self,
        expected: LabelView,
        new_layer: Option<LayerId>,
    ) -> Result<SwapOutcomeView, StoreErrorView> {
        if !self.holds(expected.name) {
            Ok(SwapOutcomeView::NotFound)
        } else {
            let current = self.labels[expected.name];
            if current.version != expected.version {
                Ok(SwapOutcomeView::Rejected { current_version: current.version })
            } else if current.version == u64::MAX {
                Err(StoreErrorView::Failed(version_exhausted_text()))
            } else {
                Ok(
                    SwapOutcomeView::Updated(
                        LabelView {
                            name: expected.name,
                            layer: new_layer,
                            version: (current.version + 1) as u64,
                        },
                    ),
                )
            }
        }
    }

    /// The store after a compare-and-swap.
    pub open spec fn swap(self, expected: LabelView, new_layer: Option<LayerId>) -> StoreModel {
        match self.swap_outcome(expected, new_layer) {
            Ok(SwapOutcomeView::Updated(label)) => StoreModel {
                labels: self.labels.insert(expected.name, label),
            },
            _ => self,
        }
    }

    /// What the store answers to a deletion: whether there was a label.
    pub open spec fn delete_outcome(self, name: Seq<char>) -> bool {
        self.holds(name)
    }

    /// The store after a deletion.
    pub open spec fn delete(self, name: Seq<char>) -> StoreModel {
        StoreModel { labels: self.labels.remove(name) }
    }

    /// Whatever is done to a store in which each label is filed under its
    /// own name, each label is still filed under its own name afterwards.
    pub proof fn lemma_operations_keep_well_formed(self)
        requires
            self.wf(),
        ensures
            forall|name: Seq<char>| #[trigger] self.create(name).wf(),
            forall|expected: LabelView, new_layer: Option<LayerId>| #[trigger]
                self.swap(expected, new_layer).wf(),
            forall|name: Seq<char>| #[trigger] self.delete(name).wf(),
    {
    }
}

} // verus!
