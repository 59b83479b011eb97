use crate::site::{Site, SiteView};
use vstd::prelude::*;
use vstd::string::StringExecFns;

verus! {

/// Why an operation of the store was refused.
#[derive(Clone, Debug, PartialEq, Eq)]
pub enum StoreError {
    /// No site is recorded for the deployment with this id.
    DeploymentNotFound(String),
    /// A site names a shard that the registry does not hold.
    UnknownShard(String),
    /// A rule on deployments was broken; the text says which.
    ConstraintViolation(String),
}

/// What a [`StoreError`] stands for in contracts.
pub enum StoreErrorView {
    DeploymentNotFound(Seq<char>),
    UnknownShard(Seq<char>),
    ConstraintViolation(Seq<char>),
}

impl View for StoreError {
    type V = StoreErrorView;

    open spec fn view(&self) -> StoreErrorView {
        match self {
            StoreError::DeploymentNotFound(id) => StoreErrorView::DeploymentNotFound(id@),
            StoreError::UnknownShard(shard) => StoreErrorView::UnknownShard(shard@),
            StoreError::ConstraintViolation(text) => StoreErrorView::ConstraintViolation(text@),
        }
    }
}

impl DeepView for StoreError {
    type V = StoreErrorView;

    open spec fn deep_view(&self) -> StoreErrorView {
        self@
    }
}

/// The text of the error for a graft whose base lives in another shard than
/// the deployment: it names both deployments and both shards.
pub open spec fn graft_message(site: SiteView, base: SiteView) -> Seq<char> {
    "Can not graft across shards. "@ + site.deployment + " is in shard "@ + site.shard
        + ", and the base "@ + base.deployment + " is in shard "@ + base.shard
}

impl StoreError {
    /// The error for grafting `site`'s deployment onto `base` when the two
    /// are not in the same shard.
    pub fn graft_across_shards(site: &Site, base: &Site) -> (error: StoreError)
        ensures
            error@ == StoreErrorView::ConstraintViolation(graft_message(site@, base@)),
    {
        let mut text = String::from_str("Can not graft across shards. ");
        text.append(site.deployment.as_str());
        text.append(" is in shard ");
        text.append(site.shard.as_str());
        text.append(", and the base ");
        text.append(base.deployment.as_str());
        text.append(" is in shard ");
        text.append(base.shard.as_str());
        StoreError::ConstraintViolation(text)
    }
}

} // verus!
