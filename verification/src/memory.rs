//! A label store that keeps its labels in memory.
//!
//! It is the model of [`crate::model`] made executable: every operation is
//! proved to answer and to change the store as the model says.

use crate::model::StoreModel;
use crate::storage::{
    found_view, labels_view, layer_of, listed_view, result_view, CreateOutcome, CreateOutcomeView,
    Label, LabelView, StoreError, StoreErrorView, SwapOutcome,
};
use vstd::prelude::*;

verus! {

/// No two labels of the listing share a name.
pub open spec fn distinct_names(listing: Seq<LabelView>) -> bool {
    forall|i: int, j: int|
        0 <= i < j < listing.len() ==> #[trigger] listing[i].name != #[trigger] listing[j].name
}

/// Whether the listing has a label of this name.
pub open spec fn names(listing: Seq<LabelView>, name: Seq<char>) -> bool {
    exists|i: int| 0 <= i < listing.len() && #[trigger] listing[i].name == name
}

/// A place in the listing at which a label of this name stands.
pub open spec fn position(listing: Seq<LabelView>, name: Seq<char>) -> int {
    choose|i: int| 0 <= i < listing.len() && #[trigger] listing[i].name == name
}

/// The store that holds the labels of the listing, each under its name.
pub open spec fn store_of(listing: Seq<LabelView>) -> StoreModel {
    StoreModel {
        labels: Map::new(
            |name: Seq<char>| names(listing, name),
            |name: Seq<char>| listing[position(listing, name)],
        ),
    }
}

/// In a listing with distinct names, a label is found under its name.
pub proof fn lemma_store_of_get(listing: Seq<LabelView>, i: int)
    requires
        distinct_names(listing),
        0 <= i < listing.len(),
    ensures
        store_of(listing).get(listing[i].name) == Some(listing[i]),
        position(listing, listing[i].name) == i,
{
    let name = listing[i].name;
    assert(names(listing, name));
    let p = position(listing, name);
    assert(0 <= p < listing.len() && listing[p].name == name);
    if p < i {
        assert(listing[p].name != listing[i].name);
    } else if i < p {
        assert(listing[i].name != listing[p].name);
    }
}

/// A listing with distinct names lists the store that it makes.
pub proof fn lemma_store_of_lists(listing: Seq<LabelView>)
    requires
        distinct_names(listing),
    ensures
        store_of(listing).wf(),
        store_of(listing).lists(listing),
{
    let store = store_of(listing);
    assert forall|name: Seq<char>| #[trigger] store.labels.contains_key(name) implies store.labels[name].name == name by {
        let p = position(listing, name);
        assert(0 <= p < listing.len() && listing[p].name == name);
    }
    assert forall|i: int| 0 <= i < listing.len() implies store.get(#[trigger] listing[i].name) == Some(
        listing[i],
    ) by {
        lemma_store_of_get(listing, i);
    }
    assert forall|name: Seq<char>| #[trigger] store.holds(name) implies exists|i: int|
        0 <= i < listing.len() && #[trigger] listing[i].name == name by {
        assert(names(listing, name));
    }
}

/// Adding a label under a new name to a listing adds it to the store.
pub proof fn lemma_store_of_push(listing: Seq<LabelView>, label: LabelView)
    requires
        distinct_names(listing),
        !names(listing, label.name),
    ensures
        distinct_names(listing.push(label)),
        store_of(listing.push(label)).labels == store_of(listing).labels.insert(label.name, label),
{
    let longer = listing.push(label);
    assert forall|i: int, j: int| 0 <= i < j < longer.len() implies #[trigger] longer[i].name
        != #[trigger] longer[j].name by {
        if j == listing.len() {
            assert(listing[i].name != label.name);
        } else {
            assert(listing[i].name != listing[j].name);
        }
    }
    let before = store_of(listing).labels.insert(label.name, label);
    let after = store_of(longer).labels;
    assert forall|name: Seq<char>| before.contains_key(name) == after.contains_key(name) by {
        if names(listing, name) {
            let p = position(listing, name);
            assert(longer[p].name == name);
        }
        if names(longer, name) {
            let p = position(longer, name);
            if p < listing.len() {
                assert(listing[p].name == name);
            }
        }
        if name == label.name {
            assert(longer[listing.len() as int].name == name);
        }
    }
    assert forall|name: Seq<char>| before.contains_key(name) implies before[name] == after[name] by {
        if name == label.name {
            lemma_store_of_get(longer, listing.len() as int);
        } else {
            let p = position(listing, name);
            lemma_store_of_get(listing, p);
            assert(longer[p] == listing[p]);
            lemma_store_of_get(longer, p);
        }
    }
    assert(before =~= after);
}

/// Replacing a label of a listing by one of the same name replaces it in the
/// store.
pub proof fn lemma_store_of_update(listing: Seq<LabelView>, i: int, label: LabelView)
    requires
        distinct_names(listing),
        0 <= i < listing.len(),
        label.name == listing[i].name,
    ensures
        distinct_names(listing.update(i, label)),
        store_of(listing.update(i, label)).labels == store_of(listing).labels.insert(
            label.name,
            label,
        ),
{
    let changed = listing.update(i, label);
    assert forall|a: int, b: int| 0 <= a < b < changed.len() implies #[trigger] changed[a].name
        != #[trigger] changed[b].name by {
        assert(listing[a].name != listing[b].name);
    }
    let before = store_of(listing).labels.insert(label.name, label);
    let after = store_of(changed).labels;
    assert forall|name: Seq<char>| before.contains_key(name) == after.contains_key(name) by {
        if names(listing, name) {
            let p = position(listing, name);
            assert(changed[p].name == name);
        }
        if names(changed, name) {
            let p = position(changed, name);
            assert(listing[p].name == name);
        }
        if name == label.name {
            assert(changed[i].name == name);
        }
    }
    assert forall|name: Seq<char>| before.contains_key(name) implies before[name] == after[name] by {
        if name == label.name {
            lemma_store_of_get(changed, i);
        } else {
            let p = position(listing, name);
            lemma_store_of_get(listing, p);
            assert(changed[p] == listing[p]);
            lemma_store_of_get(changed, p);
        }
    }
    assert(before =~= after);
}

/// Taking a label out of a listing takes it out of the store.
pub proof fn lemma_store_of_remove(listing: Seq<LabelView>, i: int)
    requires
        distinct_names(listing),
        0 <= i < listing.len(),
    ensures
        distinct_names(listing.remove(i)),
        store_of(listing.remove(i)).labels == store_of(listing).labels.remove(listing[i].name),
{
    let shorter = listing.remove(i);
    let gone = listing[i].name;
    assert forall|a: int, b: int| 0 <= a < b < shorter.len() implies #[trigger] shorter[a].name
        != #[trigger] shorter[b].name by {
        let a0 = if a < i { a } else { a + 1 };
        let b0 = if b < i { b } else { b + 1 };
        assert(shorter[a] == listing[a0]);
        assert(shorter[b] == listing[b0]);
        assert(listing[a0].name != listing[b0].name);
    }
    let before = store_of(listing).labels.remove(gone);
    let after = store_of(shorter).labels;
    assert forall|name: Seq<char>| before.contains_key(name) == after.contains_key(name) by {
        if names(listing, name) && name != gone {
            let p = position(listing, name);
            let q = if p < i { p } else { p - 1 };
            assert(shorter[q] == listing[p]);
            assert(shorter[q].name == name);
        }
        if names(shorter, name) {
            let q = position(shorter, name);
            let p = if q < i { q } else { q + 1 };
            assert(shorter[q] == listing[p]);
            assert(listing[p].name == name);
            if p < i {
                assert(listing[p].name != listing[i].name);
            } else {
                assert(listing[i].name != listing[p].name);
            }
        }
    }
    assert forall|name: Seq<char>| before.contains_key(name) implies before[name] == after[name] by {
        let p = position(listing, name);
        lemma_store_of_get(listing, p);
        let q = if p < i { p } else { p - 1 };
        assert(shorter[q] == listing[p]);
        lemma_store_of_get(shorter, q);
    }
    assert(before =~= after);
}

/// A label store in memory. Labels are kept in the order of their creation.
pub struct MemoryLabelStore {
    labels: Vec<Label>,
}

impl View for MemoryLabelStore {
    type V = StoreModel;

    closed spec fn view(&self) -> StoreModel {
        store_of(labels_view(self.labels@))
    }
}

impl MemoryLabelStore {
    #[verifier::type_invariant]
    spec fn names_are_distinct(self) -> bool {
        distinct_names(labels_view(self.labels@))
    }

    /// The labels in the order in which the store lists them.
    pub closed spec fn listing(&self) -> Seq<LabelView> {
        labels_view(self.labels@)
    }

    /// A store without labels.
    pub fn new() -> (store: Self)
        ensures
            store@ == StoreModel::empty(),
            store@.wf(),
            store.listing() == Seq::<LabelView>::empty(),
    {
        let store = MemoryLabelStore { labels: Vec::new() };
        assert(store@.labels =~= Map::empty());
        assert(store.listing() =~= Seq::<LabelView>::empty());
        store
    }

    /// Hands out the labels and leaves the store empty, for the caller to put
    /// them back changed.
    fn take_labels(&mut self) -> (labels: Vec<Label>)
        ensures
            labels@ == old(self).labels@,
    {
        let mut taken = MemoryLabelStore { labels: Vec::new() };
        std::mem::swap(self, &mut taken);
        taken.labels
    }

    /// Where the label of this name stands, if there is one.
    fn find(&self, name: &str) -> (found: Option<usize>)
        ensures
            match found {
                Some(i) => i < self.labels.len() && self.labels[i as int]@.name == name@,
                None => !names(labels_view(self.labels@), name@),
            },
    {
        let wanted = name.to_owned();
        let mut i: usize = 0;
        while i < self.labels.len()
            invariant
                i <= self.labels.len(),
                wanted@ == name@,
                forall|k: int| 0 <= k < i ==> (#[trigger] self.labels[k])@.name != name@,
            decreases self.labels.len() - i,
        {
            if self.labels[i].name == wanted {
                return Some(i);
            }
            i += 1;
        }
        assert forall|k: int| 0 <= k < labels_view(self.labels@).len() implies (
        #[trigger] labels_view(self.labels@)[k]).name != name@ by {
            assert(self.labels[k]@.name != name@);
        }
        None
    }

    /// Every label of the store, in the order of creation.
    pub fn labels(&self) -> (result: Result<Vec<Label>, StoreError>)
        ensures
            listed_view(result) == Ok::<Seq<LabelView>, StoreErrorView>(self.listing()),
            self@.wf(),
            self@.lists(self.listing()),
    {
        proof {
            use_type_invariant(self);
            lemma_store_of_lists(self.listing());
        }
        let mut labels: Vec<Label> = Vec::new();
        let mut i: usize = 0;
        while i < self.labels.len()
            invariant
                i <= self.labels.len(),
                labels.len() == i,
                forall|k: int| 0 <= k < i ==> (#[trigger] labels[k])@ == self.labels[k]@,
            decreases self.labels.len() - i,
        {
            labels.push(self.labels[i].duplicate());
            i += 1;
        }
        assert(labels_view(labels@) =~= self.listing());
        Ok(labels)
    }

    /// The label of this name, if it exists.
    pub fn get_label(&self, name: &str) -> (result: Result<Option<Label>, StoreError>)
        ensures
            found_view(result) == Ok::<Option<LabelView>, StoreErrorView>(self@.get(name@)),
            self@.wf(),
    {
        proof {
            use_type_invariant(self);
            lemma_store_of_lists(labels_view(self.labels@));
        }
        match self.find(name) {
            Some(i) => {
                proof {
                    lemma_store_of_get(labels_view(self.labels@), i as int);
                }
                Ok(Some(self.labels[i].duplicate()))
            },
            None => Ok(None),
        }
    }

    /// Creates an empty label at version 0, unless the name is taken.
    pub fn create_label(&mut self, name: &str) -> (result: Result<CreateOutcome, StoreError>)
        ensures
            result_view(result) == Ok::<CreateOutcomeView, StoreErrorView>(
                old(self)@.create_outcome(name@),
            ),
            final(self)@ == old(self)@.create(name@),
            old(self)@.wf() && final(self)@.wf(),
    {
        proof {
            use_type_invariant(&*self);
            lemma_store_of_lists(labels_view(self.labels@));
            old(self)@.lemma_operations_keep_well_formed();
        }
        match self.find(name) {
            Some(i) => {
                proof {
                    lemma_store_of_get(labels_view(self.labels@), i as int);
                }
                Ok(CreateOutcome::AlreadyExists)
            },
            None => {
                let label = Label::new_empty(name);
                let created = label.duplicate();
                proof {
                    lemma_store_of_push(labels_view(self.labels@), label@);
                    assert(labels_view(self.labels@.push(label)) =~= labels_view(
                        self.labels@,
                    ).push(label@));
                }
                let mut labels = self.take_labels();
                labels.push(label);
                self.labels = labels;
                Ok(CreateOutcome::Created(created))
            },
        }
    }

    /// Moves the label to `layer` and raises its version by one, provided
    /// that it exists and stands at the version of `label`.
    pub fn set_label_option(&mut self, label: &Label, layer: Option<[u32; 5]>) -> (result: Result<
        SwapOutcome,
        StoreError,
    >)
        ensures
            result_view(result) == old(self)@.swap_outcome(label@, layer_of(layer)),
            final(self)@ == old(self)@.swap(label@, layer_of(layer)),
            old(self)@.wf() && final(self)@.wf(),
    {
        proof {
            use_type_invariant(&*self);
            lemma_store_of_lists(labels_view(self.labels@));
            old(self)@.lemma_operations_keep_well_formed();
        }
        match self.find(label.name.as_str()) {
            None => Ok(SwapOutcome::NotFound),
            Some(i) => {
                proof {
                    lemma_store_of_get(labels_view(self.labels@), i as int);
                }
                let current = self.labels[i].version;
                if current != label.version {
                    Ok(SwapOutcome::Rejected { current_version: current })
                } else if current == u64::MAX {
                    Err(StoreError::Failed("label version cannot be increased".to_owned()))
                } else {
                    let moved = Label {
                        name: self.labels[i].name.clone(),
                        layer,
                        version: current + 1,
                    };
                    let updated = moved.duplicate();
                    proof {
                        lemma_store_of_update(labels_view(self.labels@), i as int, moved@);
                        assert(labels_view(self.labels@.update(i as int, moved)) =~= labels_view(
                            self.labels@,
                        ).update(i as int, moved@));
                    }
                    let mut labels = self.take_labels();
                    labels.set(i, moved);
                    self.labels = labels;
                    Ok(SwapOutcome::Updated(updated))
                }
            },
        }
    }

    /// Deletes the label of this name. Says whether there was one.
    pub fn delete_label(&mut self, name: &str) -> (result: Result<bool, StoreError>)
        ensures
            result_view(result) == Ok::<bool, StoreErrorView>(old(self)@.delete_outcome(name@)),
            final(self)@ == old(self)@.delete(name@),
            old(self)@.wf() && final(self)@.wf(),
    {
        proof {
            use_type_invariant(&*self);
            lemma_store_of_lists(labels_view(self.labels@));
            old(self)@.lemma_operations_keep_well_formed();
        }
        match self.find(name) {
            None => {
                assert(self@.labels.remove(name@) =~= self@.labels);
                Ok(false)
            },
            Some(i) => {
                proof {
                    lemma_store_of_get(labels_view(self.labels@), i as int);
                    lemma_store_of_remove(labels_view(self.labels@), i as int);
                    assert(labels_view(self.labels@.remove(i as int)) =~= labels_view(
                        self.labels@,
                    ).remove(i as int));
                }
                let mut labels = self.take_labels();
                labels.remove(i);
                self.labels = labels;
                Ok(true)
            },
        }
    }
}

} // verus!
