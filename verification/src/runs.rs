//! What holds of every run of a protocol, whatever the driver reports.

use crate::coordinator::{
    create_version, creation, next, partially_applied, primary_mutation, promotion, starting,
    CoordinatorView,
};
use crate::error::{graft_message, StoreErrorView};
use crate::event::EntityChangeView;
use crate::protocol::{ActionView, CreateRequestView, ResponseView};
use crate::site::SiteView;
use vstd::prelude::*;

verus! {

/// The state that `state` has become once the driver has reported
/// `responses`, one after the other.
pub open spec fn state_after(
    state: CoordinatorView,
    responses: Seq<ResponseView>,
) -> CoordinatorView
    decreases responses.len(),
{
    if responses.len() == 0 {
        state
    } else {
        next(state_after(state, responses.drop_last()), responses.last()).0
    }
}

/// The action that answers the response at position `k` of a run that
/// begins in `state`.
pub open spec fn action_at(
    state: CoordinatorView,
    responses: Seq<ResponseView>,
    k: int,
) -> ActionView
    recommends
        0 <= k < responses.len(),
{
    next(state_after(state, responses.take(k)), responses[k]).1
}

/// Whether a run that stands in `state` may still ask for the publication
/// of an event. A mutation in the primary never does: it publishes within
/// its one transaction.
pub open spec fn may_publish(state: CoordinatorView) -> bool {
    match state {
        CoordinatorView::CheckingGraft { .. } => false,
        CoordinatorView::ResolvingGraftSource { .. } => false,
        CoordinatorView::Starting => false,
        CoordinatorView::MutatingInPrimary => false,
        CoordinatorView::Publishing => false,
        CoordinatorView::Finished => false,
        _ => true,
    }
}

/// Whether a creation that stands in `state` was begun without `replace`,
/// as far as the state still says.
pub open spec fn keeps_existing(state: CoordinatorView) -> bool {
    match state {
        CoordinatorView::AllocatingSite { replace, .. } => !replace,
        CoordinatorView::ResolvingGraftBase { replace, .. } => !replace,
        CoordinatorView::CheckingExists { replace, .. } => !replace,
        _ => true,
    }
}

/// One more response moves the run by one step.
pub proof fn lemma_state_after_step(
    state: CoordinatorView,
    responses: Seq<ResponseView>,
    k: int,
)
    requires
        0 <= k < responses.len(),
    ensures
        state_after(state, responses.take(k + 1)) == next(
            state_after(state, responses.take(k)),
            responses[k],
        ).0,
{
    assert(responses.take(k + 1).drop_last() =~= responses.take(k));
}

/// Once a run can publish no more, it never can again.
pub proof fn lemma_published_stays_published(
    state: CoordinatorView,
    responses: Seq<ResponseView>,
    i: int,
    j: int,
)
    requires
        0 <= i <= j <= responses.len(),
        !may_publish(state_after(state, responses.take(i))),
    ensures
        !may_publish(state_after(state, responses.take(j))),
    decreases j - i,
{
    if i < j {
        lemma_published_stays_published(state, responses, i, j - 1);
        lemma_state_after_step(state, responses, j - 1);
    }
}

/// In every run of every protocol at most one action publishes an event:
/// two positions of one run whose actions both publish are the same
/// position.
pub proof fn lemma_publishes_at_most_once(
    state: CoordinatorView,
    responses: Seq<ResponseView>,
    i: int,
    j: int,
)
    requires
        0 <= i < responses.len(),
        0 <= j < responses.len(),
        action_at(state, responses, i) is Publish,
        action_at(state, responses, j) is Publish,
    ensures
        i == j,
{
    if i < j {
        lemma_state_after_step(state, responses, i);
        lemma_published_stays_published(state, responses, i + 1, j);
    } else if j < i {
        lemma_state_after_step(state, responses, j);
        lemma_published_stays_published(state, responses, j + 1, i);
    }
}

/// Whether `state` belongs to a protocol that publishes in a step of its
/// own: every protocol but the start of a deployment, which publishes
/// nothing, and the mutation in the primary, which publishes within its
/// transaction.
pub open spec fn publishes_in_a_step(state: CoordinatorView) -> bool {
    match state {
        CoordinatorView::CheckingGraft { .. } => false,
        CoordinatorView::ResolvingGraftSource { .. } => false,
        CoordinatorView::Starting => false,
        CoordinatorView::MutatingInPrimary => false,
        _ => true,
    }
}

/// A run stays within its protocol.
pub proof fn lemma_stays_in_protocol(state: CoordinatorView, responses: Seq<ResponseView>)
    requires
        publishes_in_a_step(state),
    ensures
        publishes_in_a_step(state_after(state, responses)),
    decreases responses.len(),
{
    if responses.len() > 0 {
        lemma_stays_in_protocol(state, responses.drop_last());
    }
}

/// A run of a protocol that publishes in a step of its own ends with `Done`
/// only after it has published: the action before the `Done` publishes the
/// event. With [`lemma_publishes_at_most_once`], such a run publishes
/// exactly one event.
pub proof fn lemma_done_follows_publication(
    state: CoordinatorView,
    responses: Seq<ResponseView>,
    k: int,
)
    requires
        may_publish(state),
        0 <= k < responses.len(),
        action_at(state, responses, k) == ActionView::Done,
    ensures
        k >= 1,
        action_at(state, responses, k - 1) is Publish,
{
    lemma_stays_in_protocol(state, responses.take(k));
    if k == 0 {
        assert(responses.take(0) =~= Seq::empty());
    } else {
        lemma_state_after_step(state, responses, k - 1);
    }
}

/// The start of a deployment changes nothing that subscribers watch:
/// whatever the driver reports, no action of its run publishes an event.
pub proof fn lemma_start_publishes_nothing(
    site: SiteView,
    responses: Seq<ResponseView>,
    k: int,
)
    requires
        0 <= k < responses.len(),
    ensures
        !(action_at(starting(site).0, responses, k) is Publish),
{
    assert(responses.take(0) =~= Seq::empty());
    lemma_published_stays_published(starting(site).0, responses, 0, k);
}

/// Whether `state` is one in which a protocol begins.
pub open spec fn begins(state: CoordinatorView) -> bool {
    match state {
        CoordinatorView::AllocatingSite { .. } => true,
        CoordinatorView::CheckingGraft { .. } => true,
        CoordinatorView::Promoting { .. } => true,
        CoordinatorView::Mutating => true,
        CoordinatorView::MutatingInPrimary => true,
        _ => false,
    }
}

/// Whether one of the first `k` responses reports a transaction that
/// committed.
pub open spec fn commit_reported(responses: Seq<ResponseView>, k: int) -> bool {
    exists|j: int| 0 <= j < k && #[trigger] responses[j] is Changes
}

/// While a run from the beginning of a protocol goes on, a transaction has
/// committed exactly if the driver has reported one.
pub proof fn lemma_commits_are_remembered(
    state: CoordinatorView,
    responses: Seq<ResponseView>,
    k: int,
)
    requires
        begins(state),
        0 <= k <= responses.len(),
    ensures
        !(state_after(state, responses.take(k)) is Finished) ==> (partially_applied(
            state_after(state, responses.take(k)),
        ) <==> commit_reported(responses, k)),
    decreases k,
{
    if k == 0 {
        assert(responses.take(0) =~= Seq::empty());
    } else {
        lemma_commits_are_remembered(state, responses, k - 1);
        lemma_state_after_step(state, responses, k - 1);
        let before = state_after(state, responses.take(k - 1));
        let after = state_after(state, responses.take(k));
        if !(after is Finished) {
            assert(!(before is Finished));
            if commit_reported(responses, k - 1) {
                let j = choose|j: int| 0 <= j < k - 1 && #[trigger] responses[j] is Changes;
                assert(0 <= j < k && responses[j] is Changes);
            }
            if responses[k - 1] is Changes {
                assert(commit_reported(responses, k));
            }
            if commit_reported(responses, k) && !commit_reported(responses, k - 1) {
                let j = choose|j: int| 0 <= j < k && #[trigger] responses[j] is Changes;
                assert(j == k - 1);
            }
        }
    }
}

/// A run from the beginning of a protocol that ends because a step failed
/// tells the truth about what stays behind: it says that the protocol was
/// partially applied exactly if the driver had reported a committed
/// transaction before the step that failed.
pub proof fn lemma_abort_tells_what_was_committed(
    state: CoordinatorView,
    responses: Seq<ResponseView>,
    k: int,
)
    requires
        begins(state),
        0 <= k < responses.len(),
        !(state_after(state, responses.take(k)) is Finished),
        action_at(state, responses, k) is Abort,
    ensures
        action_at(state, responses, k)->partially_applied == commit_reported(responses, k),
{
    lemma_commits_are_remembered(state, responses, k);
}

/// A mutation in the primary is one transaction that changes and
/// publishes: where it succeeds the run is over, and where it fails nothing
/// of it stays behind. Whatever the driver reports, the run asks for no
/// publication of its own and never ends as partially applied.
pub proof fn lemma_primary_mutation_is_all_or_nothing(responses: Seq<ResponseView>, k: int)
    requires
        0 <= k < responses.len(),
    ensures
        primary_mutation().1 == ActionView::ExecuteInPrimary,
        next(primary_mutation().0, ResponseView::Done) == (
            CoordinatorView::Finished,
            ActionView::Done,
        ),
        next(primary_mutation().0, ResponseView::Failed) == (
            CoordinatorView::Finished,
            ActionView::Abort { partially_applied: false },
        ),
        !(action_at(primary_mutation().0, responses, k) is Publish),
        action_at(primary_mutation().0, responses, k) is Abort ==> !action_at(
            primary_mutation().0,
            responses,
            k,
        )->partially_applied,
{
    let begin = primary_mutation().0;
    assert(responses.take(0) =~= Seq::empty());
    lemma_published_stays_published(begin, responses, 0, k);
    if k >= 1 {
        lemma_state_after_step(begin, responses, 0);
        lemma_finished_stays_finished(begin, responses, 1, k);
    }
}

/// A run that is over stays over.
pub proof fn lemma_finished_stays_finished(
    state: CoordinatorView,
    responses: Seq<ResponseView>,
    i: int,
    j: int,
)
    requires
        0 <= i <= j <= responses.len(),
        state_after(state, responses.take(i)) is Finished,
    ensures
        state_after(state, responses.take(j)) is Finished,
    decreases j - i,
{
    if i < j {
        lemma_finished_stays_finished(state, responses, i, j - 1);
        lemma_state_after_step(state, responses, j - 1);
    }
}

/// A promotion that runs to its end asks for the switch of versions in the
/// primary, then marks the deployment synced in its shard, then publishes
/// one event, which holds exactly what the primary changed.
pub proof fn lemma_promotion_runs_to_one_event(site: SiteView, changes: Seq<EntityChangeView>)
    ensures
        ({
            let (promoting, first) = promotion(site);
            let (marking, second) = next(promoting, ResponseView::Changes { changes });
            let (publishing, third) = next(marking, ResponseView::Done);
            let (finished, fourth) = next(publishing, ResponseView::Done);
            &&& first == ActionView::PromoteDeployment { deployment: site.deployment }
            &&& second == ActionView::SetSynced { site }
            &&& third == ActionView::Publish { event: changes }
            &&& fourth == ActionView::Done
            &&& finished == CoordinatorView::Finished
        }),
{
}

/// Whatever the driver reports during a promotion, an event is published
/// only after the primary's transaction and then the shard's transaction
/// have been reported as committed, and it holds what the primary changed.
pub proof fn lemma_promotion_publishes_after_both_commits(
    site: SiteView,
    responses: Seq<ResponseView>,
    k: int,
)
    requires
        0 <= k < responses.len(),
        action_at(promotion(site).0, responses, k) is Publish,
    ensures
        k == 1,
        responses[0] is Changes,
        responses[1] == ResponseView::Done,
        action_at(promotion(site).0, responses, k) == (ActionView::Publish {
            event: responses[0]->changes,
        }),
{
    let begin = promotion(site).0;
    assert(responses.take(0) =~= Seq::empty());
    assert(state_after(begin, responses.take(0)) == begin);
    if k >= 1 {
        lemma_state_after_step(begin, responses, 0);
        if k >= 2 {
            lemma_state_after_step(begin, responses, 1);
            lemma_published_stays_published(begin, responses, 2, k);
        }
    }
}

/// A creation that was begun without `replace` never leaves its first
/// steps with `replace` set.
pub proof fn lemma_keeps_existing(state: CoordinatorView, responses: Seq<ResponseView>)
    requires
        keeps_existing(state),
    ensures
        keeps_existing(state_after(state, responses)),
    decreases responses.len(),
{
    if responses.len() > 0 {
        lemma_keeps_existing(state, responses.drop_last());
    }
}

/// Whatever the driver reports during a creation without `replace`, the
/// deployment's records and schema are written only in answer to the report
/// that the deployment is not in its shard yet: one that is there is left
/// as it is.
pub proof fn lemma_creation_spares_existing_deployment(
    request: CreateRequestView,
    responses: Seq<ResponseView>,
    k: int,
)
    requires
        0 <= k < responses.len(),
        action_at(creation(request, false).0, responses, k) is CreateInShard,
    ensures
        responses[k] == (ResponseView::Exists { present: false }),
{
    lemma_keeps_existing(creation(request, false).0, responses.take(k));
}

/// Where the deployment is in its shard already, a creation without
/// `replace` asks nothing of the shard: it goes on to the primary with an
/// empty set of changes, and the event that it publishes holds what the
/// primary changed and nothing else. With `replace` the records are written
/// again.
pub proof fn lemma_second_creation_changes_nothing_in_shard(
    request: CreateRequestView,
    site: SiteView,
    graft_base: Option<SiteView>,
    changes: Seq<EntityChangeView>,
)
    ensures
        ({
            let checking = CoordinatorView::CheckingExists {
                request,
                replace: false,
                site,
                graft_base,
            };
            let (creating, first) = next(checking, ResponseView::Exists { present: true });
            let (publishing, second) = next(creating, ResponseView::Changes { changes });
            &&& first == create_version(request)
            &&& creating == (CoordinatorView::CreatingVersion {
                event: Seq::empty(),
                applied: false,
            })
            &&& second == ActionView::Publish { event: changes }
        }),
        ({
            let checking = CoordinatorView::CheckingExists {
                request,
                replace: true,
                site,
                graft_base,
            };
            next(checking, ResponseView::Exists { present: true }).1
                == ActionView::CreateInShard { site, graft_base }
        }),
{
    assert(Seq::<EntityChangeView>::empty() + changes =~= changes);
}

/// A creation whose graft base lives in another shard than the new
/// deployment ends with a constraint violation as soon as the base's site
/// is known, before any transaction is opened.
pub proof fn lemma_graft_across_shards_is_refused(
    request: CreateRequestView,
    replace: bool,
    site: SiteView,
    base: SiteView,
)
    requires
        request.graft_base is Some,
        base.shard != site.shard,
    ensures
        ({
            let (allocating, first) = creation(request, replace);
            let (resolving, second) = next(allocating, ResponseView::SiteFound { site });
            let (finished, third) = next(resolving, ResponseView::SiteFound { site: base });
            &&& second == ActionView::FindExistingSite { deployment: request.graft_base->0 }
            &&& third == ActionView::Fail {
                error: StoreErrorView::ConstraintViolation(graft_message(site, base)),
            }
            &&& finished == CoordinatorView::Finished
        }),
{
}

/// A creation whose graft base lives in the shard of the new deployment
/// goes on, and the deployment is created from the base's site.
pub proof fn lemma_graft_within_shard_seeds_deployment(
    request: CreateRequestView,
    replace: bool,
    site: SiteView,
    base: SiteView,
)
    requires
        request.graft_base is Some,
        base.shard == site.shard,
    ensures
        ({
            let (allocating, first) = creation(request, replace);
            let (resolving, second) = next(allocating, ResponseView::SiteFound { site });
            let (checking, third) = next(resolving, ResponseView::SiteFound { site: base });
            let (creating, fourth) = next(checking, ResponseView::Exists { present: false });
            &&& third == ActionView::CheckExists { site }
            &&& fourth == ActionView::CreateInShard { site, graft_base: Some(base) }
        }),
{
}

} // verus!
