use crate::block::{BlockPointer, BlockPointerView};
use crate::error::{graft_message, StoreError, StoreErrorView};
use crate::event::{EntityChangeView, StoreEvent};
use crate::protocol::{
    Action, ActionView, CreateRequest, CreateRequestView, Response, ResponseView,
};
use crate::site::{primary_shard, Site, SiteView};
use crate::text::same_text;
use vstd::prelude::*;

verus! {

/// Where a protocol that spans shards stands. A protocol is started by one
/// of the constructors, which hands out the first [`Action`]; every
/// [`Coordinator::step`] takes the driver's [`Response`] to the last action
/// and hands out the next one, until the state is [`Coordinator::Finished`].
#[derive(Clone, Debug, PartialEq, Eq)]
pub enum Coordinator {
    /// Creation: waits for the site of the new deployment.
    AllocatingSite { request: CreateRequest, replace: bool },
    /// Creation: waits for the site of the graft base.
    ResolvingGraftBase { request: CreateRequest, replace: bool, site: Site },
    /// Creation: waits to hear whether the deployment is in its shard.
    CheckingExists { request: CreateRequest, replace: bool, site: Site, graft_base: Option<Site> },
    /// Creation: waits for the shard's transaction to commit.
    CreatingInShard { request: CreateRequest },
    /// Creation: waits for the primary's transaction to commit. `event`
    /// holds what the shard changed, and `applied` says whether the shard
    /// committed anything.
    CreatingVersion { event: StoreEvent, applied: bool },
    /// Start: waits to hear which graft is pending.
    CheckingGraft { site: Site },
    /// Start: waits for the site of the pending graft's base. `block` is the
    /// block up to which the graft copies.
    ResolvingGraftSource { site: Site, block: BlockPointer },
    /// Start: waits for the shard's transaction to commit.
    Starting,
    /// Promotion: waits for the primary's transaction to commit.
    Promoting { site: Site },
    /// Promotion: waits for the shard's transaction to commit. `event` holds
    /// what the primary changed.
    MarkingSynced { event: StoreEvent },
    /// A mutation in a shard: waits for its transaction to commit.
    Mutating,
    /// A mutation in the primary: waits for the transaction that changes
    /// and publishes.
    MutatingInPrimary,
    /// Every transaction has committed: waits for the event to be published.
    Publishing,
    /// The protocol is over.
    Finished,
}

/// What a [`Coordinator`] stands for in contracts.
pub enum CoordinatorView {
    AllocatingSite { request: CreateRequestView, replace: bool },
    ResolvingGraftBase { request: CreateRequestView, replace: bool, site: SiteView },
    CheckingExists {
        request: CreateRequestView,
        replace: bool,
        site: SiteView,
        graft_base: Option<SiteView>,
    },
    CreatingInShard { request: CreateRequestView },
    CreatingVersion { event: Seq<EntityChangeView>, applied: bool },
    CheckingGraft { site: SiteView },
    ResolvingGraftSource { site: SiteView, block: BlockPointerView },
    Starting,
    Promoting { site: SiteView },
    MarkingSynced { event: Seq<EntityChangeView> },
    Mutating,
    MutatingInPrimary,
    Publishing,
    Finished,
}

impl View for Coordinator {
    type V = CoordinatorView;

    open spec fn view(&self) -> CoordinatorView {
        match self {
            Coordinator::AllocatingSite { request, replace } => CoordinatorView::AllocatingSite {
                request: request@,
                replace: *replace,
            },
            Coordinator::ResolvingGraftBase {
                request,
                replace,
                site,
            } => CoordinatorView::ResolvingGraftBase {
                request: request@,
                replace: *replace,
                site: site@,
            },
            Coordinator::CheckingExists {
                request,
                replace,
                site,
                graft_base,
            } => CoordinatorView::CheckingExists {
                request: request@,
                replace: *replace,
                site: site@,
                graft_base: graft_base.deep_view(),
            },
            Coordinator::CreatingInShard { request } => CoordinatorView::CreatingInShard {
                request: request@,
            },
            Coordinator::CreatingVersion { event, applied } => CoordinatorView::CreatingVersion {
                event: event@,
                applied: *applied,
            },
            Coordinator::CheckingGraft { site } => CoordinatorView::CheckingGraft { site: site@ },
            Coordinator::ResolvingGraftSource {
                site,
                block,
            } => CoordinatorView::ResolvingGraftSource { site: site@, block: block@ },
            Coordinator::Starting => CoordinatorView::Starting,
            Coordinator::Promoting { site } => CoordinatorView::Promoting { site: site@ },
            Coordinator::MarkingSynced { event } => CoordinatorView::MarkingSynced {
                event: event@,
            },
            Coordinator::Mutating => CoordinatorView::Mutating,
            Coordinator::MutatingInPrimary => CoordinatorView::MutatingInPrimary,
            Coordinator::Publishing => CoordinatorView::Publishing,
            Coordinator::Finished => CoordinatorView::Finished,
        }
    }
}

/// Whether a transaction of the protocol has committed while the protocol
/// has not run to its end.
pub open spec fn partially_applied(state: CoordinatorView) -> bool {
    match state {
        CoordinatorView::CreatingVersion { applied, .. } => applied,
        CoordinatorView::MarkingSynced { .. } => true,
        CoordinatorView::Publishing => true,
        _ => false,
    }
}

/// The end of a protocol whose last action failed, or was answered by a
/// response that it does not ask for.
pub open spec fn aborted(state: CoordinatorView) -> (CoordinatorView, ActionView) {
    (CoordinatorView::Finished, ActionView::Abort { partially_applied: partially_applied(state) })
}

/// The action that creates the subgraph version for `request`.
pub open spec fn create_version(request: CreateRequestView) -> ActionView {
    ActionView::CreateSubgraphVersion {
        name: request.name,
        deployment: request.deployment,
        node_id: request.node_id,
        mode: request.mode,
    }
}

/// The state after `response` arrives in `state`, and the action to perform
/// next.
pub open spec fn next(state: CoordinatorView, response: ResponseView) -> (
    CoordinatorView,
    ActionView,
) {
    match (state, response) {
        (
            CoordinatorView::AllocatingSite { request, replace },
            ResponseView::SiteFound { site },
        ) => match request.graft_base {
            Some(base) => (
                CoordinatorView::ResolvingGraftBase { request, replace, site },
                ActionView::FindExistingSite { deployment: base },
            ),
            None => (
                CoordinatorView::CheckingExists { request, replace, site, graft_base: None },
                ActionView::CheckExists { site },
            ),
        },
        (
            CoordinatorView::ResolvingGraftBase { request, replace, site },
            ResponseView::SiteFound { site: base },
        ) => if base.shard == site.shard {
            (
                CoordinatorView::CheckingExists { request, replace, site, graft_base: Some(base) },
                ActionView::CheckExists { site },
            )
        } else {
            (
                CoordinatorView::Finished,
                ActionView::Fail {
                    error: StoreErrorView::ConstraintViolation(graft_message(site, base)),
                },
            )
        },
        (
            CoordinatorView::CheckingExists { request, replace, site, graft_base },
            ResponseView::Exists { present },
        ) => if !present || replace {
            (
                CoordinatorView::CreatingInShard { request },
                ActionView::CreateInShard { site, graft_base },
            )
        } else {
            (
                CoordinatorView::CreatingVersion { event: Seq::empty(), applied: false },
                create_version(request),
            )
        },
        (CoordinatorView::CreatingInShard { request }, ResponseView::Changes { changes }) => (
            CoordinatorView::CreatingVersion { event: changes, applied: true },
            create_version(request),
        ),
        (CoordinatorView::CreatingVersion { event, .. }, ResponseView::Changes { changes }) => (
            CoordinatorView::Publishing,
            ActionView::Publish { event: event + changes },
        ),
        (CoordinatorView::CheckingGraft { site }, ResponseView::GraftPending { base }) => match base {
            Some(graft) => (
                CoordinatorView::ResolvingGraftSource { site, block: graft.1 },
                ActionView::FindExistingSite { deployment: graft.0 },
            ),
            None => (
                CoordinatorView::Starting,
                ActionView::StartSubgraph { site, graft_base: None },
            ),
        },
        (
            CoordinatorView::ResolvingGraftSource { site, block },
            ResponseView::SiteFound { site: base },
        ) => (
            CoordinatorView::Starting,
            ActionView::StartSubgraph { site, graft_base: Some((base, block)) },
        ),
        (CoordinatorView::Starting, ResponseView::Done) => (
            CoordinatorView::Finished,
            ActionView::Done,
        ),
        (CoordinatorView::Promoting { site }, ResponseView::Changes { changes }) => (
            CoordinatorView::MarkingSynced { event: changes },
            ActionView::SetSynced { site },
        ),
        (CoordinatorView::MarkingSynced { event }, ResponseView::Done) => (
            CoordinatorView::Publishing,
            ActionView::Publish { event },
        ),
        (CoordinatorView::Mutating, ResponseView::Changes { changes }) => (
            CoordinatorView::Publishing,
            ActionView::Publish { event: changes },
        ),
        (CoordinatorView::MutatingInPrimary, ResponseView::Done) => (
            CoordinatorView::Finished,
            ActionView::Done,
        ),
        (CoordinatorView::Publishing, ResponseView::Done) => (
            CoordinatorView::Finished,
            ActionView::Done,
        ),
        _ => aborted(state),
    }
}

/// How the creation of a deployment begins: the site is allocated in the
/// primary shard.
pub open spec fn creation(request: CreateRequestView, replace: bool) -> (
    CoordinatorView,
    ActionView,
) {
    (
        CoordinatorView::AllocatingSite { request, replace },
        ActionView::AllocateSite { shard: primary_shard(), deployment: request.deployment },
    )
}

/// How the start of the deployment at `site` begins.
pub open spec fn starting(site: SiteView) -> (CoordinatorView, ActionView) {
    (CoordinatorView::CheckingGraft { site }, ActionView::GraftPending { site })
}

/// How the promotion of the deployment at `site` begins.
pub open spec fn promotion(site: SiteView) -> (CoordinatorView, ActionView) {
    (
        CoordinatorView::Promoting { site },
        ActionView::PromoteDeployment { deployment: site.deployment },
    )
}

/// How a mutation in the shard of `site` begins. What it changes is
/// published once its transaction has committed.
pub open spec fn mutation(site: SiteView) -> (CoordinatorView, ActionView) {
    (CoordinatorView::Mutating, ActionView::ExecuteInShard { site })
}

/// How a mutation in the primary begins. It changes and publishes in one
/// transaction, so that it leaves nothing behind where it fails.
pub open spec fn primary_mutation() -> (CoordinatorView, ActionView) {
    (CoordinatorView::MutatingInPrimary, ActionView::ExecuteInPrimary)
}

impl Coordinator {
    /// Begins the creation of the deployment that `request` describes.
    /// `replace` asks to write the deployment's records again where the
    /// deployment exists already; it is meant for test fixtures only.
    pub fn create(request: CreateRequest, replace: bool) -> (res: (Coordinator, Action))
        ensures
            (res.0@, res.1@) == creation(request@, replace),
    {
        let action = Action::AllocateSite {
            shard: "primary".to_owned(),
            deployment: request.deployment.clone(),
        };
        (Coordinator::AllocatingSite { request, replace }, action)
    }

    /// Begins the start of the deployment at `site`.
    pub fn start(site: Site) -> (res: (Coordinator, Action))
        ensures
            (res.0@, res.1@) == starting(site@),
    {
        let action = Action::GraftPending { site: site.clone() };
        (Coordinator::CheckingGraft { site }, action)
    }

    /// Begins the promotion of the deployment at `site`, which has caught up
    /// with the chain.
    pub fn promote(site: Site) -> (res: (Coordinator, Action))
        ensures
            (res.0@, res.1@) == promotion(site@),
    {
        let action = Action::PromoteDeployment { deployment: site.deployment.clone() };
        (Coordinator::Promoting { site }, action)
    }

    /// Begins a mutation that runs in one transaction in the shard of
    /// `site`.
    pub fn mutate(site: Site) -> (res: (Coordinator, Action))
        ensures
            (res.0@, res.1@) == mutation(site@),
    {
        (Coordinator::Mutating, Action::ExecuteInShard { site })
    }

    /// Begins a mutation that runs in one transaction in the primary, which
    /// publishes what it changed before it commits.
    pub fn mutate_primary() -> (res: (Coordinator, Action))
        ensures
            (res.0@, res.1@) == primary_mutation(),
    {
        (Coordinator::MutatingInPrimary, Action::ExecuteInPrimary)
    }

    /// Whether the protocol is over.
    pub fn is_finished(&self) -> (res: bool)
        ensures
            res == (self@ is Finished),
    {
        match self {
            Coordinator::Finished => true,
            _ => false,
        }
    }

    /// Whether a transaction of the protocol has committed while the
    /// protocol has not run to its end.
    pub fn partially_applied(&self) -> (res: bool)
        ensures
            res == partially_applied(self@),
    {
        match self {
            Coordinator::CreatingVersion { applied, .. } => *applied,
            Coordinator::MarkingSynced { .. } => true,
            Coordinator::Publishing => true,
            _ => false,
        }
    }

    /// Takes the driver's response to the last action, and hands out the
    /// state that follows and the next action. A response that the state
    /// does not wait for ends the protocol like a failed step.
    pub fn step(self, response: Response) -> (res: (Coordinator, Action))
        ensures
            (res.0@, res.1@) == next(self@, response@),
    {
        let abort = Action::Abort { partially_applied: self.partially_applied() };
        match self {
            Coordinator::AllocatingSite { request, replace } => match response {
                Response::SiteFound { site } => {
                    let base = match &request.graft_base {
                        Some(base) => Some(base.clone()),
                        None => None,
                    };
                    match base {
                        Some(base) => (
                            Coordinator::ResolvingGraftBase { request, replace, site },
                            Action::FindExistingSite { deployment: base },
                        ),
                        None => {
                            let action = Action::CheckExists { site: site.clone() };
                            (
                                Coordinator::CheckingExists {
                                    request,
                                    replace,
                                    site,
                                    graft_base: None,
                                },
                                action,
                            )
                        },
                    }
                },
                _ => (Coordinator::Finished, abort),
            },
            Coordinator::ResolvingGraftBase { request, replace, site } => match response {
                Response::SiteFound { site: base } => {
                    if same_text(base.shard.as_str(), site.shard.as_str()) {
                        let action = Action::CheckExists { site: site.clone() };
                        (
                            Coordinator::CheckingExists {
                                request,
                                replace,
                                site,
                                graft_base: Some(base),
                            },
                            action,
                        )
                    } else {
                        let error = StoreError::graft_across_shards(&site, &base);
                        (Coordinator::Finished, Action::Fail { error })
                    }
                },
                _ => (Coordinator::Finished, abort),
            },
            Coordinator::CheckingExists { request, replace, site, graft_base } => match response {
                Response::Exists { present } => {
                    if !present || replace {
                        (
                            Coordinator::CreatingInShard { request },
                            Action::CreateInShard { site, graft_base },
                        )
                    } else {
                        let event = StoreEvent::new(Vec::new());
                        assert(event@ =~= Seq::empty());
                        (
                            Coordinator::CreatingVersion { event, applied: false },
                            Self::create_version(request),
                        )
                    }
                },
                _ => (Coordinator::Finished, abort),
            },
            Coordinator::CreatingInShard { request } => match response {
                Response::Changes { changes } => {
                    let event = StoreEvent::new(changes);
                    (
                        Coordinator::CreatingVersion { event, applied: true },
                        Self::create_version(request),
                    )
                },
                _ => (Coordinator::Finished, abort),
            },
            Coordinator::CreatingVersion { event, applied: _ } => match response {
                Response::Changes { changes } => {
                    let mut event = event;
                    event.extend(changes);
                    (Coordinator::Publishing, Action::Publish { event })
                },
                _ => (Coordinator::Finished, abort),
            },
            Coordinator::CheckingGraft { site } => match response {
                Response::GraftPending { base } => match base {
                    Some((base, block)) => (
                        Coordinator::ResolvingGraftSource { site, block },
                        Action::FindExistingSite { deployment: base },
                    ),
                    None => (
                        Coordinator::Starting,
                        Action::StartSubgraph { site, graft_base: None },
                    ),
                },
                _ => (Coordinator::Finished, abort),
            },
            Coordinator::ResolvingGraftSource { site, block } => match response {
                Response::SiteFound { site: base } => (
                    Coordinator::Starting,
                    Action::StartSubgraph { site, graft_base: Some((base, block)) },
                ),
                _ => (Coordinator::Finished, abort),
            },
            Coordinator::Starting => match response {
                Response::Done => (Coordinator::Finished, Action::Done),
                _ => (Coordinator::Finished, abort),
            },
            Coordinator::Promoting { site } => match response {
                Response::Changes { changes } => (
                    Coordinator::MarkingSynced { event: StoreEvent::new(changes) },
                    Action::SetSynced { site },
                ),
                _ => (Coordinator::Finished, abort),
            },
            Coordinator::MarkingSynced { event } => match response {
                Response::Done => (Coordinator::Publishing, Action::Publish { event }),
                _ => (Coordinator::Finished, abort),
            },
            Coordinator::Mutating => match response {
                Response::Changes { changes } => (
                    Coordinator::Publishing,
                    Action::Publish { event: StoreEvent::new(changes) },
                ),
                _ => (Coordinator::Finished, abort),
            },
            Coordinator::MutatingInPrimary => match response {
                Response::Done => (Coordinator::Finished, Action::Done),
                _ => (Coordinator::Finished, abort),
            },
            Coordinator::Publishing => match response {
                Response::Done => (Coordinator::Finished, Action::Done),
                _ => (Coordinator::Finished, abort),
            },
            Coordinator::Finished => (Coordinator::Finished, abort),
        }
    }

    fn create_version(request: CreateRequest) -> (action: Action)
        ensures
            action@ == create_version(request@),
    {
        Action::CreateSubgraphVersion {
            name: request.name,
            deployment: request.deployment,
            node_id: request.node_id,
            mode: request.mode,
        }
    }
}

} // verus!
