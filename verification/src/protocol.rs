use crate::block::{BlockPointer, BlockPointerView};
use crate::error::{StoreError, StoreErrorView};
use crate::event::{EntityChange, EntityChangeView, StoreEvent};
use crate::site::{Site, SiteView};
use vstd::prelude::*;

verus! {

/// When a new version of a subgraph takes over from the current one.
#[derive(Clone, Copy, Debug, PartialEq, Eq, Structural)]
pub enum SwitchingMode {
    /// At once.
    Instant,
    /// Once the new version's deployment is synced.
    Synced,
}

/// What the creation of a deployment is asked to do.
#[derive(Clone, Debug, PartialEq, Eq)]
pub struct CreateRequest {
    /// The subgraph name that gets a new version.
    pub name: String,
    /// The id of the deployment to create.
    pub deployment: String,
    /// The deployment whose data seeds the new one, if any.
    pub graft_base: Option<String>,
    /// The node that the deployment is assigned to.
    pub node_id: String,
    pub mode: SwitchingMode,
}

/// What a [`CreateRequest`] stands for in contracts.
pub struct CreateRequestView {
    pub name: Seq<char>,
    pub deployment: Seq<char>,
    pub graft_base: Option<Seq<char>>,
    pub node_id: Seq<char>,
    pub mode: SwitchingMode,
}

impl View for CreateRequest {
    type V = CreateRequestView;

    open spec fn view(&self) -> CreateRequestView {
        CreateRequestView {
            name: self.name@,
            deployment: self.deployment@,
            graft_base: self.graft_base.deep_view(),
            node_id: self.node_id@,
            mode: self.mode,
        }
    }
}

/// One piece of outside work that a protocol asks its driver to perform.
/// The driver performs it and hands the matching [`Response`] to
/// [`Coordinator::step`](crate::coordinator::Coordinator::step).
#[derive(Clone, Debug, PartialEq, Eq)]
pub enum Action {
    /// On the primary: record the site of `deployment` in `shard` unless one
    /// is recorded already. Answered by [`Response::SiteFound`] with the
    /// site that is recorded afterwards.
    AllocateSite { shard: String, deployment: String },
    /// On the primary: look up the site of `deployment`, which must exist.
    /// Answered by [`Response::SiteFound`].
    FindExistingSite { deployment: String },
    /// On the shard of `site`: open a transaction and see whether the
    /// deployment is there already. Answered by [`Response::Exists`]. The
    /// transaction stays open if the next action is
    /// [`Action::CreateInShard`], and ends without a change otherwise.
    CheckExists { site: Site },
    /// In the transaction that [`Action::CheckExists`] opened: apply the
    /// deployment's creation operations and create its schema in the
    /// namespace of `site`, seeded from `graft_base` if there is one; then
    /// commit. Answered by [`Response::Changes`].
    CreateInShard { site: Site, graft_base: Option<Site> },
    /// On the primary, in one transaction: create the subgraph, its new
    /// version and the assignment to `node_id`, switching versions as `mode`
    /// says. Where the primary needs to know whether the deployment of an
    /// earlier version exists and is synced, the driver routes that
    /// deployment with
    /// [`ShardedStore::store`](crate::sharded_store::ShardedStore::store)
    /// and asks its shard. Answered by [`Response::Changes`].
    CreateSubgraphVersion { name: String, deployment: String, node_id: String, mode: SwitchingMode },
    /// On the shard of `site`: read which graft is pending for the
    /// deployment. Answered by [`Response::GraftPending`].
    GraftPending { site: Site },
    /// On the shard of `site`, in one transaction: clear the deployment's
    /// failure state, then mark it started. Where `graft_base` is there, the
    /// deployment copies from the base at that site, up to that block.
    /// Answered by [`Response::Done`].
    StartSubgraph { site: Site, graft_base: Option<(Site, BlockPointer)> },
    /// On the primary, in one transaction: switch the version pointers of
    /// the subgraphs that wait for `deployment`. Answered by
    /// [`Response::Changes`].
    PromoteDeployment { deployment: String },
    /// On the shard of `site`, in one transaction: mark the deployment
    /// synced. Answered by [`Response::Done`].
    SetSynced { site: Site },
    /// On the shard of `site`, in one transaction: carry out the mutation
    /// that the caller holds. Answered by [`Response::Changes`].
    ExecuteInShard { site: Site },
    /// On the primary, in one transaction: carry out the mutation that the
    /// caller holds, and publish the event of what it changed. Where either
    /// fails, the transaction is rolled back. Answered by
    /// [`Response::Done`].
    ExecuteInPrimary,
    /// Through the primary: publish `event` to the subscribers. Answered by
    /// [`Response::Done`].
    Publish { event: StoreEvent },
    /// The protocol has run to its end.
    Done,
    /// The protocol ends with `error`; no transaction is open.
    Fail { error: StoreError },
    /// The protocol ends because a step failed. `partially_applied` says
    /// whether a transaction had committed before: what it changed stays.
    Abort { partially_applied: bool },
}

/// What an [`Action`] stands for in contracts.
pub enum ActionView {
    AllocateSite { shard: Seq<char>, deployment: Seq<char> },
    FindExistingSite { deployment: Seq<char> },
    CheckExists { site: SiteView },
    CreateInShard { site: SiteView, graft_base: Option<SiteView> },
    CreateSubgraphVersion {
        name: Seq<char>,
        deployment: Seq<char>,
        node_id: Seq<char>,
        mode: SwitchingMode,
    },
    GraftPending { site: SiteView },
    StartSubgraph { site: SiteView, graft_base: Option<(SiteView, BlockPointerView)> },
    PromoteDeployment { deployment: Seq<char> },
    SetSynced { site: SiteView },
    ExecuteInShard { site: SiteView },
    ExecuteInPrimary,
    Publish { event: Seq<EntityChangeView> },
    Done,
    Fail { error: StoreErrorView },
    Abort { partially_applied: bool },
}

impl View for Action {
    type V = ActionView;

    open spec fn view(&self) -> ActionView {
        match self {
            Action::AllocateSite { shard, deployment } => ActionView::AllocateSite {
                shard: shard@,
                deployment: deployment@,
            },
            Action::FindExistingSite { deployment } => ActionView::FindExistingSite {
                deployment: deployment@,
            },
            Action::CheckExists { site } => ActionView::CheckExists { site: site@ },
            Action::CreateInShard { site, graft_base } => ActionView::CreateInShard {
                site: site@,
                graft_base: graft_base.deep_view(),
            },
            Action::CreateSubgraphVersion {
                name,
                deployment,
                node_id,
                mode,
            } => ActionView::CreateSubgraphVersion {
                name: name@,
                deployment: deployment@,
                node_id: node_id@,
                mode: *mode,
            },
            Action::GraftPending { site } => ActionView::GraftPending { site: site@ },
            Action::StartSubgraph { site, graft_base } => ActionView::StartSubgraph {
                site: site@,
                graft_base: graft_base.deep_view(),
            },
            Action::PromoteDeployment { deployment } => ActionView::PromoteDeployment {
                deployment: deployment@,
            },
            Action::SetSynced { site } => ActionView::SetSynced { site: site@ },
            Action::ExecuteInShard { site } => ActionView::ExecuteInShard { site: site@ },
            Action::ExecuteInPrimary => ActionView::ExecuteInPrimary,
            Action::Publish { event } => ActionView::Publish { event: event@ },
            Action::Done => ActionView::Done,
            Action::Fail { error } => ActionView::Fail { error: error@ },
            Action::Abort { partially_applied } => ActionView::Abort {
                partially_applied: *partially_applied,
            },
        }
    }
}

/// What the driver reports of the action that it performed last.
#[derive(Clone, Debug, PartialEq, Eq)]
pub enum Response {
    /// The site that the primary holds for the deployment asked for.
    SiteFound { site: Site },
    /// Whether the deployment is in its shard already.
    Exists { present: bool },
    /// The transaction committed, and made these changes.
    Changes { changes: Vec<EntityChange> },
    /// The deployment that a pending graft copies from, and the block up to
    /// which it copies, if a graft is pending.
    GraftPending { base: Option<(String, BlockPointer)> },
    /// The action was carried out.
    Done,
    /// The action failed; what it changed was rolled back.
    Failed,
}

/// What a [`Response`] stands for in contracts.
pub enum ResponseView {
    SiteFound { site: SiteView },
    Exists { present: bool },
    Changes { changes: Seq<EntityChangeView> },
    GraftPending { base: Option<(Seq<char>, BlockPointerView)> },
    Done,
    Failed,
}

impl View for Response {
    type V = ResponseView;

    open spec fn view(&self) -> ResponseView {
        match self {
            Response::SiteFound { site } => ResponseView::SiteFound { site: site@ },
            Response::Exists { present } => ResponseView::Exists { present: *present },
            Response::Changes { changes } => ResponseView::Changes { changes: changes.deep_view() },
            Response::GraftPending { base } => ResponseView::GraftPending {
                base: base.deep_view(),
            },
            Response::Done => ResponseView::Done,
            Response::Failed => ResponseView::Failed,
        }
    }
}

} // verus!
