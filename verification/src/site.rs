use crate::text::same_text;
use vstd::prelude::*;

verus! {

/// The name of the shard that holds the global registry.
pub open spec fn primary_shard() -> Seq<char> {
    "primary"@
}

/// The id of the deployment that holds the metadata of all the others.
pub open spec fn metadata_deployment() -> Seq<char> {
    "subgraphs"@
}

/// The binding of a deployment to a shard and a namespace inside that shard.
#[derive(Debug, PartialEq, Eq)]
pub struct Site {
    pub deployment: String,
    pub shard: String,
    pub namespace: String,
}

/// What a [`Site`] stands for in contracts.
pub struct SiteView {
    pub deployment: Seq<char>,
    pub shard: Seq<char>,
    pub namespace: Seq<char>,
}

impl View for Site {
    type V = SiteView;

    open spec fn view(&self) -> SiteView {
        SiteView { deployment: self.deployment@, shard: self.shard@, namespace: self.namespace@ }
    }
}

impl DeepView for Site {
    type V = SiteView;

    open spec fn deep_view(&self) -> SiteView {
        self@
    }
}

impl Clone for Site {
    fn clone(&self) -> (res: Self)
        ensures
            res == *self,
    {
        Site {
            deployment: self.deployment.clone(),
            shard: self.shard.clone(),
            namespace: self.namespace.clone(),
        }
    }
}

/// Whether `id` names the deployment that holds the metadata.
pub fn is_meta(id: &str) -> (res: bool)
    ensures
        res == (id@ == metadata_deployment()),
{
    same_text(id, "subgraphs")
}

} // verus!
