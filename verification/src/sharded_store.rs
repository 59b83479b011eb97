use crate::affinity::{batch_in_shard, EntityKey};
use crate::coordinator::{
    creation, mutation, primary_mutation, promotion, starting, Coordinator,
};
use crate::error::{StoreError, StoreErrorView};
use crate::protocol::{Action, CreateRequest};
use crate::site::{metadata_deployment, primary_shard, Site, SiteView};
use crate::text::same_text;
use vstd::prelude::*;

verus! {

/// A storage shard as the registry holds it: its name, and the handle
/// through which the caller reaches it.
pub struct Shard<S> {
    pub name: String,
    pub store: S,
}

/// The names of `stores`, in their order.
pub open spec fn names_of<S>(stores: Seq<Shard<S>>) -> Seq<Seq<char>> {
    Seq::new(stores.len(), |i: int| stores[i].name@)
}

/// The handles of `stores`, in their order.
pub open spec fn handles_of<S>(stores: Seq<Shard<S>>) -> Seq<S> {
    Seq::new(stores.len(), |i: int| stores[i].store)
}

/// Whether `names` is a registry that the store can be built on: it holds the
/// primary shard and nothing else.
pub open spec fn single_primary(names: Seq<Seq<char>>) -> bool {
    names.len() == 1 && names[0] == primary_shard()
}

/// Multiplexes the operations on deployments between a primary shard and the
/// shards that hold the deployments' data. It owns the registry of shards,
/// which does not change once the store is built.
pub struct ShardedStore<S> {
    primary: usize,
    stores: Vec<Shard<S>>,
}

impl<S> ShardedStore<S> {
    /// The names of the registered shards.
    pub closed spec fn names(&self) -> Seq<Seq<char>> {
        names_of(self.stores@)
    }

    /// The handles of the registered shards, each at the position of its
    /// name in [`Self::names`].
    pub closed spec fn handles(&self) -> Seq<S> {
        handles_of(self.stores@)
    }

    /// The position of the primary shard in the registry.
    pub closed spec fn primary_index(&self) -> int {
        self.primary as int
    }

    /// What holds of every store: no two shards share a name, and the
    /// primary shard is one of them.
    #[verifier::type_invariant]
    pub closed spec fn wf(&self) -> bool {
        &&& self.names().no_duplicates()
        &&& 0 <= self.primary < self.stores@.len()
        &&& self.names()[self.primary as int] == primary_shard()
    }

    /// Whether a shard named `shard` is registered.
    pub open spec fn knows(&self, shard: Seq<char>) -> bool {
        self.names().contains(shard)
    }

    /// The handle of the registered shard named `shard`.
    pub open spec fn handle(&self, shard: Seq<char>) -> S
        recommends
            self.knows(shard),
    {
        self.handles()[self.names().index_of(shard)]
    }

    /// Where the operations on the deployment `id` go, given the site that
    /// the primary holds for it: to the shard that the site names, within
    /// the site's namespace.
    pub open spec fn dispatch(&self, id: Seq<char>, found: Option<SiteView>) -> Result<
        (S, SiteView),
        StoreErrorView,
    > {
        match found {
            None => Err(StoreErrorView::DeploymentNotFound(id)),
            Some(site) => if self.knows(site.shard) {
                Ok((self.handle(site.shard), site))
            } else {
                Err(StoreErrorView::UnknownShard(site.shard))
            },
        }
    }

    /// What [`Self::wf`] says, for the callers that cannot see into it.
    pub proof fn lemma_wf(&self)
        requires
            self.wf(),
        ensures
            self.names().no_duplicates(),
            self.names().len() == self.handles().len(),
            0 <= self.primary_index() < self.names().len(),
            self.names()[self.primary_index()] == primary_shard(),
            self.knows(primary_shard()),
            self.handle(primary_shard()) == self.handles()[self.primary_index()],
    {
        let names = self.names();
        assert(names[self.primary as int] == primary_shard());
        assert(names.contains(primary_shard()));
        let at = names.index_of(primary_shard());
        assert(names[at] == names[self.primary as int]);
    }

    /// Whether the store can be built on `stores`: for now it takes the
    /// primary shard and no other.
    pub fn valid_configuration(stores: &Vec<Shard<S>>) -> (res: bool)
        ensures
            res == single_primary(names_of(stores@)),
    {
        stores.len() == 1 && same_text(stores[0].name.as_str(), "primary")
    }

    /// The store over `stores`.
    pub fn new(stores: Vec<Shard<S>>) -> (store: Self)
        requires
            single_primary(names_of(stores@)),
        ensures
            store.wf(),
            store.names() == names_of(stores@),
            store.handles() == handles_of(stores@),
            store.primary_index() == 0,
    {
        ShardedStore { primary: 0, stores }
    }

    /// The handle of the primary shard.
    pub fn primary(&self) -> (handle: &S)
        ensures
            self.knows(primary_shard()),
            *handle == self.handle(primary_shard()),
    {
        proof {
            use_type_invariant(self);
            self.lemma_wf();
        }
        &self.stores[self.primary].store
    }

    /// The names of the registered shards, in the order of the registry.
    pub fn shard_names(&self) -> (names: Vec<String>)
        ensures
            names.deep_view() == self.names(),
    {
        let mut names: Vec<String> = Vec::new();
        let mut i: usize = 0;
        while i < self.stores.len()
            invariant
                0 <= i <= self.stores@.len(),
                names@.len() == i,
                forall|k: int| 0 <= k < i ==> (#[trigger] names@[k])@ == self.stores@[k].name@,
            decreases self.stores@.len() - i,
        {
            names.push(self.stores[i].name.clone());
            i += 1;
        }
        assert(names.deep_view() =~= self.names());
        names
    }

    /// The handle of the shard named `shard`, or `UnknownShard` where the
    /// registry holds no such shard.
    pub fn shard(&self, shard: &str) -> (res: Result<&S, StoreError>)
        ensures
            match res {
                Ok(handle) => self.knows(shard@) && *handle == self.handle(shard@),
                Err(error) => !self.knows(shard@) && error@ == StoreErrorView::UnknownShard(
                    shard@,
                ),
            },
    {
        proof {
            use_type_invariant(self);
        }
        let mut i: usize = 0;
        while i < self.stores.len()
            invariant
                0 <= i <= self.stores@.len(),
                self.names().no_duplicates(),
                forall|k: int| 0 <= k < i ==> self.names()[k] != shard@,
            decreases self.stores@.len() - i,
        {
            if same_text(self.stores[i].name.as_str(), shard) {
                proof {
                    let names = self.names();
                    assert(names[i as int] == shard@);
                    assert(names.contains(shard@));
                    let at = names.index_of(shard@);
                    assert(names[at] == names[i as int]);
                }
                return Ok(&self.stores[i].store);
            }
            i += 1;
        }
        Err(StoreError::UnknownShard(shard.to_owned()))
    }

    /// The site of the deployment `id`, given what the primary holds for it:
    /// `DeploymentNotFound` where it holds nothing.
    pub fn site(&self, id: &str, found: Option<Site>) -> (res: Result<Site, StoreError>)
        ensures
            match res {
                Ok(site) => found.deep_view() == Some(site@),
                Err(error) => found is None && error@ == StoreErrorView::DeploymentNotFound(id@),
            },
    {
        match found {
            Some(site) => Ok(site),
            None => Err(StoreError::DeploymentNotFound(id.to_owned())),
        }
    }

    /// The shard and the site through which the deployment `id` is reached,
    /// given the site that the primary holds for it.
    pub fn store(&self, id: &str, found: Option<Site>) -> (res: Result<(&S, Site), StoreError>)
        ensures
            match res {
                Ok((handle, site)) => self.dispatch(id@, found.deep_view()) == Ok::<
                    (S, SiteView),
                    StoreErrorView,
                >((*handle, site@)),
                Err(error) => self.dispatch(id@, found.deep_view()) == Err::<
                    (S, SiteView),
                    StoreErrorView,
                >(error@),
            },
    {
        let site = self.site(id, found)?;
        let handle = self.shard(site.shard.as_str())?;
        Ok((handle, site))
    }

    /// The shard and the site that answer queries on the deployment `id`,
    /// which must not be the deployment that holds the metadata.
    pub fn query_store(&self, id: &str, found: Option<Site>) -> (res: Result<
        (&S, Site),
        StoreError,
    >)
        requires
            id@ != metadata_deployment(),
        ensures
            match res {
                Ok((handle, site)) => self.dispatch(id@, found.deep_view()) == Ok::<
                    (S, SiteView),
                    StoreErrorView,
                >((*handle, site@)),
                Err(error) => self.dispatch(id@, found.deep_view()) == Err::<
                    (S, SiteView),
                    StoreErrorView,
                >(error@),
            },
    {
        self.store(id, found)
    }

    /// Begins the creation of the deployment that `request` describes, in
    /// the primary shard. `replace` is for test fixtures only: elsewhere it
    /// is `false`.
    pub fn create_deployment_internal(&self, request: CreateRequest, replace: bool) -> (res: (
        Coordinator,
        Action,
    ))
        ensures
            (res.0@, res.1@) == creation(request@, replace),
            self.knows(primary_shard()),
    {
        proof {
            use_type_invariant(self);
            self.lemma_wf();
        }
        Coordinator::create(request, replace)
    }

    /// Begins the creation of the deployment that `request` describes. A
    /// deployment that is in its shard already is left as it is.
    pub fn create_subgraph_deployment(&self, request: CreateRequest) -> (res: (
        Coordinator,
        Action,
    ))
        ensures
            (res.0@, res.1@) == creation(request@, false),
    {
        self.create_deployment_internal(request, false)
    }

    /// Begins the start of the deployment `id`, given the site that the
    /// primary holds for it.
    pub fn start_subgraph_deployment(&self, id: &str, found: Option<Site>) -> (res: Result<
        (Coordinator, Action),
        StoreError,
    >)
        ensures
            match res {
                Ok((state, action)) => self.dispatch(id@, found.deep_view()) is Ok && (
                    state@,
                    action@,
                ) == starting(self.dispatch(id@, found.deep_view())->Ok_0.1),
                Err(error) => self.dispatch(id@, found.deep_view()) == Err::<
                    (S, SiteView),
                    StoreErrorView,
                >(error@),
            },
    {
        let (_, site) = self.store(id, found)?;
        Ok(Coordinator::start(site))
    }

    /// Begins the promotion of the deployment `id`, which has caught up with
    /// the chain, given the site that the primary holds for it.
    pub fn deployment_synced(&self, id: &str, found: Option<Site>) -> (res: Result<
        (Coordinator, Action),
        StoreError,
    >)
        ensures
            match res {
                Ok((state, action)) => self.dispatch(id@, found.deep_view()) is Ok && (
                    state@,
                    action@,
                ) == promotion(self.dispatch(id@, found.deep_view())->Ok_0.1),
                Err(error) => self.dispatch(id@, found.deep_view()) == Err::<
                    (S, SiteView),
                    StoreErrorView,
                >(error@),
            },
    {
        let (_, site) = self.store(id, found)?;
        Ok(Coordinator::promote(site))
    }

    /// Begins the transaction of the block operations `mods` on the
    /// deployment `id`, given the site that the primary holds for it. All of
    /// `mods` must live in the shard of `id`: a batch that holds a record of
    /// the primary, or data of another deployment, is a mistake of the
    /// caller, and no such batch meets the precondition
    /// ([`lemma_batch_outside_shard`](crate::affinity::lemma_batch_outside_shard)).
    pub fn transact_block_operations(
        &self,
        id: &str,
        found: Option<Site>,
        mods: &Vec<EntityKey>,
    ) -> (res: Result<(Coordinator, Action), StoreError>)
        requires
            batch_in_shard(mods.deep_view(), id@),
        ensures
            match res {
                Ok((state, action)) => self.dispatch(id@, found.deep_view()) is Ok && (
                    state@,
                    action@,
                ) == mutation(self.dispatch(id@, found.deep_view())->Ok_0.1),
                Err(error) => self.dispatch(id@, found.deep_view()) == Err::<
                    (S, SiteView),
                    StoreErrorView,
                >(error@),
            },
    {
        let (_, site) = self.store(id, found)?;
        Ok(Coordinator::mutate(site))
    }

    /// Begins the application of the metadata operations `operations` for
    /// the deployment `target_deployment`, given the site that the primary
    /// holds for it. All of `operations` must live in the shard of
    /// `target_deployment`: they are on the deployment and what belongs to
    /// it. A batch that holds a record of the primary is a mistake of the
    /// caller, and no such batch meets the precondition
    /// ([`lemma_batch_outside_shard`](crate::affinity::lemma_batch_outside_shard)).
    pub fn apply_metadata_operations(
        &self,
        target_deployment: &str,
        found: Option<Site>,
        operations: &Vec<EntityKey>,
    ) -> (res: Result<(Coordinator, Action), StoreError>)
        requires
            batch_in_shard(operations.deep_view(), target_deployment@),
        ensures
            match res {
                Ok((state, action)) => self.dispatch(target_deployment@, found.deep_view()) is Ok
                    && (state@, action@) == mutation(
                    self.dispatch(target_deployment@, found.deep_view())->Ok_0.1,
                ),
                Err(error) => self.dispatch(target_deployment@, found.deep_view()) == Err::<
                    (S, SiteView),
                    StoreErrorView,
                >(error@),
            },
    {
        let (_, site) = self.store(target_deployment, found)?;
        Ok(Coordinator::mutate(site))
    }

    /// Begins the revert of the deployment `id` from one block to an earlier
    /// one, given the site that the primary holds for the deployment.
    pub fn revert_block_operations(&self, id: &str, found: Option<Site>) -> (res: Result<
        (Coordinator, Action),
        StoreError,
    >)
        ensures
            match res {
                Ok((state, action)) => self.dispatch(id@, found.deep_view()) is Ok && (
                    state@,
                    action@,
                ) == mutation(self.dispatch(id@, found.deep_view())->Ok_0.1),
                Err(error) => self.dispatch(id@, found.deep_view()) == Err::<
                    (S, SiteView),
                    StoreErrorView,
                >(error@),
            },
    {
        let (_, site) = self.store(id, found)?;
        Ok(Coordinator::mutate(site))
    }

    /// Begins the removal of a subgraph, which the primary carries out and
    /// publishes in one transaction.
    pub fn remove_subgraph(&self) -> (res: (Coordinator, Action))
        ensures
            (res.0@, res.1@) == primary_mutation(),
    {
        Coordinator::mutate_primary()
    }

    /// Begins the assignment of a deployment to another node, which the
    /// primary carries out and publishes in one transaction.
    pub fn reassign_subgraph(&self) -> (res: (Coordinator, Action))
        ensures
            (res.0@, res.1@) == primary_mutation(),
    {
        Coordinator::mutate_primary()
    }
}

/// Where the operations on a deployment go depends on the registry and on
/// the deployment's site alone. The registry does not change once the store
/// is built, and a site is never reassigned: so any two look-ups of a
/// deployment that has a site reach the same shard and the same namespace,
/// namely the registered shard that the site names and the namespace that
/// the site holds.
pub proof fn lemma_dispatch_is_stable<S>(
    store: ShardedStore<S>,
    id: Seq<char>,
    site: SiteView,
    first: (S, SiteView),
    second: (S, SiteView),
)
    requires
        store.wf(),
        store.dispatch(id, Some(site)) == Ok::<(S, SiteView), StoreErrorView>(first),
        store.dispatch(id, Some(site)) == Ok::<(S, SiteView), StoreErrorView>(second),
    ensures
        first.0 == second.0,
        first.1.namespace == second.1.namespace,
        store.knows(site.shard),
        first.0 == store.handle(site.shard),
        first.1 == site,
{
}

} // verus!
