use vstd::prelude::*;

verus! {

/// What happened to an entity.
#[derive(Clone, Copy, Debug, PartialEq, Eq, Structural)]
pub enum EntityChangeOperation {
    Written,
    Removed,
}

/// One change to one entity, as subscribers see it.
#[derive(Debug, PartialEq, Eq)]
pub struct EntityChange {
    pub subgraph_id: String,
    pub entity_type: String,
    pub entity_id: String,
    pub operation: EntityChangeOperation,
}

/// What an [`EntityChange`] stands for in contracts.
pub struct EntityChangeView {
    pub subgraph_id: Seq<char>,
    pub entity_type: Seq<char>,
    pub entity_id: Seq<char>,
    pub operation: EntityChangeOperation,
}

impl View for EntityChange {
    type V = EntityChangeView;

    open spec fn view(&self) -> EntityChangeView {
        EntityChangeView {
            subgraph_id: self.subgraph_id@,
            entity_type: self.entity_type@,
            entity_id: self.entity_id@,
            operation: self.operation,
        }
    }
}

impl DeepView for EntityChange {
    type V = EntityChangeView;

    open spec fn deep_view(&self) -> EntityChangeView {
        self@
    }
}

impl Clone for EntityChange {
    fn clone(&self) -> (res: Self)
        ensures
            res == *self,
    {
        EntityChange {
            subgraph_id: self.subgraph_id.clone(),
            entity_type: self.entity_type.clone(),
            entity_id: self.entity_id.clone(),
            operation: self.operation,
        }
    }
}

/// The changes that one logical transaction made, in the order in which
/// they were made. Its view is the sequence of those changes.
#[derive(Clone, Debug, PartialEq, Eq)]
pub struct StoreEvent {
    pub changes: Vec<EntityChange>,
}

impl View for StoreEvent {
    type V = Seq<EntityChangeView>;

    open spec fn view(&self) -> Seq<EntityChangeView> {
        self.changes.deep_view()
    }
}

impl DeepView for StoreEvent {
    type V = Seq<EntityChangeView>;

    open spec fn deep_view(&self) -> Seq<EntityChangeView> {
        self@
    }
}

/// Appending to a vector appends to its deep view.
proof fn lemma_deep_view_concat(a: Seq<EntityChange>, b: Seq<EntityChange>)
    ensures
        Seq::new((a + b).len(), |i: int| (a + b)[i].deep_view()) == Seq::new(
            a.len(),
            |i: int| a[i].deep_view(),
        ) + Seq::new(b.len(), |i: int| b[i].deep_view()),
{
    assert(Seq::new((a + b).len(), |i: int| (a + b)[i].deep_view()) =~= Seq::new(
        a.len(),
        |i: int| a[i].deep_view(),
    ) + Seq::new(b.len(), |i: int| b[i].deep_view()));
}

impl StoreEvent {
    /// The event that holds `changes`, in their order.
    pub fn new(changes: Vec<EntityChange>) -> (event: StoreEvent)
        ensures
            event@ == changes.deep_view(),
    {
        StoreEvent { changes }
    }

    /// Adds `changes` behind the changes that the event already holds.
    pub fn extend(&mut self, changes: Vec<EntityChange>)
        ensures
            final(self)@ == old(self)@ + changes.deep_view(),
    {
        let mut more = changes;
        proof {
            lemma_deep_view_concat(self.changes@, more@);
        }
        self.changes.append(&mut more);
    }

    /// Whether the event holds no change.
    pub fn is_empty(&self) -> (res: bool)
        ensures
            res == (self@.len() == 0),
    {
        self.changes.len() == 0
    }
}

} // verus!
