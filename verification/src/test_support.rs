//! What test fixtures need to put a store back into its first state. None
//! of this is for production code.

use crate::coordinator::{creation, Coordinator};
use crate::error::{StoreError, StoreErrorView};
use crate::protocol::{Action, CreateRequest};
use crate::sharded_store::ShardedStore;
use crate::site::{Site, SiteView};
use vstd::prelude::*;

verus! {

/// One step of wiping a store.
#[derive(Clone, Debug, PartialEq, Eq)]
pub enum CleanupStep {
    /// In the shard named `shard`: drop the entities in `namespace`.
    DropEntities { shard: String, namespace: String },
    /// In the shard named `shard`: delete all metadata.
    DeleteMetadata { shard: String },
    /// Forget what is cached of the shard named `shard`.
    ClearCache { shard: String },
}

/// What a [`CleanupStep`] stands for in contracts.
pub enum CleanupStepView {
    DropEntities { shard: Seq<char>, namespace: Seq<char> },
    DeleteMetadata { shard: Seq<char> },
    ClearCache { shard: Seq<char> },
}

impl View for CleanupStep {
    type V = CleanupStepView;

    open spec fn view(&self) -> CleanupStepView {
        match self {
            CleanupStep::DropEntities { shard, namespace } => CleanupStepView::DropEntities {
                shard: shard@,
                namespace: namespace@,
            },
            CleanupStep::DeleteMetadata { shard } => CleanupStepView::DeleteMetadata {
                shard: shard@,
            },
            CleanupStep::ClearCache { shard } => CleanupStepView::ClearCache { shard: shard@ },
        }
    }
}

impl DeepView for CleanupStep {
    type V = CleanupStepView;

    open spec fn deep_view(&self) -> CleanupStepView {
        self@
    }
}

/// For each of `sites`, in their order, the step that drops its entities.
pub open spec fn drops(sites: Seq<SiteView>) -> Seq<CleanupStepView> {
    Seq::new(
        sites.len(),
        |i: int| CleanupStepView::DropEntities { shard: sites[i].shard, namespace: sites[i].namespace },
    )
}

/// For each of `shards`, in their order, the step that deletes its metadata.
pub open spec fn deletions(shards: Seq<Seq<char>>) -> Seq<CleanupStepView> {
    Seq::new(shards.len(), |i: int| CleanupStepView::DeleteMetadata { shard: shards[i] })
}

/// For each of `shards`, in their order, the step that clears its cache.
pub open spec fn cache_clearings(shards: Seq<Seq<char>>) -> Seq<CleanupStepView> {
    Seq::new(shards.len(), |i: int| CleanupStepView::ClearCache { shard: shards[i] })
}

/// The position of the first of `sites` whose shard `store` does not hold,
/// or the length of `sites` if it holds them all.
pub open spec fn first_unknown<S>(store: ShardedStore<S>, sites: Seq<SiteView>) -> int
    decreases sites.len(),
{
    if sites.len() == 0 {
        0
    } else if !store.knows(sites[0].shard) {
        0
    } else {
        1 + first_unknown(store, sites.drop_first())
    }
}

/// Where [`first_unknown`] points: at a site in an unknown shard, behind
/// sites in known shards only.
pub proof fn lemma_first_unknown<S>(store: ShardedStore<S>, sites: Seq<SiteView>)
    ensures
        0 <= first_unknown(store, sites) <= sites.len(),
        forall|k: int|
            0 <= k < first_unknown(store, sites) ==> store.knows(#[trigger] sites[k].shard),
        first_unknown(store, sites) < sites.len() ==> !store.knows(
            sites[first_unknown(store, sites)].shard,
        ),
    decreases sites.len(),
{
    if sites.len() > 0 && store.knows(sites[0].shard) {
        let rest = sites.drop_first();
        lemma_first_unknown(store, rest);
        assert forall|k: int| 0 <= k < first_unknown(store, sites) implies store.knows(
            #[trigger] sites[k].shard,
        ) by {
            if k > 0 {
                assert(sites[k] == rest[k - 1]);
            }
        }
        if first_unknown(store, sites) < sites.len() {
            assert(sites[first_unknown(store, sites)] == rest[first_unknown(store, rest)]);
        }
    }
}

impl<S> ShardedStore<S> {
    /// Begins the creation of the deployment that `request` describes, and
    /// writes its records and its schema again if it is in its shard
    /// already. Test fixtures use this to set a deployment back to its
    /// beginning; production code creates deployments with
    /// [`ShardedStore::create_subgraph_deployment`].
    pub fn create_deployment_replace(&self, request: CreateRequest) -> (res: (
        Coordinator,
        Action,
    ))
        ensures
            (res.0@, res.1@) == creation(request@, true),
    {
        self.create_deployment_internal(request, true)
    }

    /// The steps that clear what is cached of each shard, in the order of
    /// the registry.
    pub fn clear_storage_cache(&self) -> (steps: Vec<CleanupStep>)
        ensures
            steps.deep_view() == cache_clearings(self.names()),
    {
        let names = self.shard_names();
        let ghost shards = names.deep_view();
        let mut steps: Vec<CleanupStep> = Vec::new();
        let mut i: usize = 0;
        while i < names.len()
            invariant
                0 <= i <= names@.len(),
                shards == names.deep_view(),
                steps@.len() == i,
                forall|k: int| 0 <= k < i ==> (#[trigger] steps@[k])@ == cache_clearings(shards)[k],
            decreases names@.len() - i,
        {
            assert(names@[i as int]@ == shards[i as int]);
            steps.push(CleanupStep::ClearCache { shard: names[i].clone() });
            i += 1;
        }
        assert(steps.deep_view() =~= cache_clearings(shards));
        steps
    }

    /// The steps that delete all entities of a store whose primary lists
    /// `sites`, and the error with which the deletion ends, if it does. The
    /// caller carries out the steps in their order and then returns the
    /// error. The entities of every site are dropped, then the metadata of
    /// every shard is deleted, then every cache is cleared. Where a site
    /// names a shard that the registry does not hold, the deletion ends
    /// there with `UnknownShard`: the sites before it are dropped and stay
    /// so, and nothing else is done. This is for integration tests only, and
    /// nothing else should call it.
    pub fn delete_all_entities_for_test_use_only(&self, sites: &Vec<Site>) -> (res: (
        Vec<CleanupStep>,
        Option<StoreError>,
    ))
        ensures
            match res.1 {
                None => {
                    &&& first_unknown(*self, sites.deep_view()) == sites@.len()
                    &&& res.0.deep_view() == drops(sites.deep_view()) + deletions(self.names())
                        + cache_clearings(self.names())
                },
                Some(error) => {
                    &&& first_unknown(*self, sites.deep_view()) < sites@.len()
                    &&& error@ == StoreErrorView::UnknownShard(
                        sites.deep_view()[first_unknown(*self, sites.deep_view())].shard,
                    )
                    &&& res.0.deep_view() == drops(
                        sites.deep_view().take(first_unknown(*self, sites.deep_view())),
                    )
                },
            },
    {
        let ghost all = sites.deep_view();
        proof {
            lemma_first_unknown(*self, all);
        }
        let mut steps: Vec<CleanupStep> = Vec::new();
        let mut i: usize = 0;
        while i < sites.len()
            invariant
                0 <= i <= sites@.len(),
                all == sites.deep_view(),
                i <= first_unknown(*self, all) <= all.len(),
                forall|k: int|
                    0 <= k < first_unknown(*self, all) ==> self.knows(#[trigger] all[k].shard),
                first_unknown(*self, all) < all.len() ==> !self.knows(
                    all[first_unknown(*self, all)].shard,
                ),
                steps@.len() == i,
                forall|k: int| 0 <= k < i ==> (#[trigger] steps@[k])@ == drops(all)[k],
            decreases sites@.len() - i,
        {
            let site = &sites[i];
            assert(site@ == all[i as int]);
            match self.shard(site.shard.as_str()) {
                Ok(_) => {},
                Err(error) => {
                    assert(!self.knows(all[i as int].shard));
                    assert(steps.deep_view() =~= drops(all.take(i as int)));
                    return (steps, Some(error));
                },
            }
            steps.push(
                CleanupStep::DropEntities {
                    shard: site.shard.clone(),
                    namespace: site.namespace.clone(),
                },
            );
            i += 1;
        }
        let names = self.shard_names();
        let ghost shards = names.deep_view();
        let mut j: usize = 0;
        while j < names.len()
            invariant
                0 <= j <= names@.len(),
                shards == names.deep_view(),
                steps@.len() == all.len() + j,
                forall|k: int| 0 <= k < all.len() ==> (#[trigger] steps@[k])@ == drops(all)[k],
                forall|k: int|
                    all.len() <= k < all.len() + j ==> (#[trigger] steps@[k])@ == deletions(
                        shards,
                    )[k - all.len()],
            decreases names@.len() - j,
        {
            assert(names@[j as int]@ == shards[j as int]);
            steps.push(CleanupStep::DeleteMetadata { shard: names[j].clone() });
            j += 1;
        }
        let mut clearings = self.clear_storage_cache();
        proof {
            let before = steps@;
            let more = clearings@;
            assert(steps.deep_view() =~= drops(all) + deletions(shards));
            assert(Seq::new((before + more).len(), |k: int| (before + more)[k].deep_view())
                =~= steps.deep_view() + clearings.deep_view());
        }
        steps.append(&mut clearings);
        (steps, None)
    }
}

} // verus!
