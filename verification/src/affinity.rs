use crate::site::metadata_deployment;
use crate::text::same_text;
use vstd::prelude::*;

verus! {

/// Where a record lives.
#[derive(Clone, Copy, Debug, PartialEq, Eq, Structural)]
pub enum Affinity {
    /// In the primary shard, whatever deployment it belongs to.
    Primary,
    /// In the shard of the deployment that owns it.
    ShardLocal,
}

/// The kinds of metadata that the catalog knows.
#[derive(Clone, Copy, Debug, PartialEq, Eq, Structural)]
pub enum MetadataType {
    Subgraph,
    SubgraphDeployment,
    SubgraphDeploymentAssignment,
    SubgraphManifest,
    EthereumContractDataSource,
    DynamicEthereumContractDataSource,
    EthereumContractSource,
    EthereumContractMapping,
    EthereumContractAbi,
    EthereumBlockHandlerEntity,
    EthereumBlockHandlerFilterEntity,
    EthereumCallHandlerEntity,
    EthereumContractEventHandler,
    EthereumContractDataSourceTemplate,
    EthereumContractDataSourceTemplateSource,
    SubgraphError,
}

/// The name under which entities of `kind` are stored.
pub open spec fn metadata_name(kind: MetadataType) -> Seq<char> {
    match kind {
        MetadataType::Subgraph => "Subgraph"@,
        MetadataType::SubgraphDeployment => "SubgraphDeployment"@,
        MetadataType::SubgraphDeploymentAssignment => "SubgraphDeploymentAssignment"@,
        MetadataType::SubgraphManifest => "SubgraphManifest"@,
        MetadataType::EthereumContractDataSource => "EthereumContractDataSource"@,
        MetadataType::DynamicEthereumContractDataSource => "DynamicEthereumContractDataSource"@,
        MetadataType::EthereumContractSource => "EthereumContractSource"@,
        MetadataType::EthereumContractMapping => "EthereumContractMapping"@,
        MetadataType::EthereumContractAbi => "EthereumContractAbi"@,
        MetadataType::EthereumBlockHandlerEntity => "EthereumBlockHandlerEntity"@,
        MetadataType::EthereumBlockHandlerFilterEntity => "EthereumBlockHandlerFilterEntity"@,
        MetadataType::EthereumCallHandlerEntity => "EthereumCallHandlerEntity"@,
        MetadataType::EthereumContractEventHandler => "EthereumContractEventHandler"@,
        MetadataType::EthereumContractDataSourceTemplate => "EthereumContractDataSourceTemplate"@,
        MetadataType::EthereumContractDataSourceTemplateSource =>
            "EthereumContractDataSourceTemplateSource"@,
        MetadataType::SubgraphError => "SubgraphError"@,
    }
}

/// The catalogued kind that is stored under `name`, if there is one.
pub open spec fn metadata_named(name: Seq<char>) -> Option<MetadataType> {
    if name == metadata_name(MetadataType::Subgraph) {
        Some(MetadataType::Subgraph)
    } else if name == metadata_name(MetadataType::SubgraphDeployment) {
        Some(MetadataType::SubgraphDeployment)
    } else if name == metadata_name(MetadataType::SubgraphDeploymentAssignment) {
        Some(MetadataType::SubgraphDeploymentAssignment)
    } else if name == metadata_name(MetadataType::SubgraphManifest) {
        Some(MetadataType::SubgraphManifest)
    } else if name == metadata_name(MetadataType::EthereumContractDataSource) {
        Some(MetadataType::EthereumContractDataSource)
    } else if name == metadata_name(MetadataType::DynamicEthereumContractDataSource) {
        Some(MetadataType::DynamicEthereumContractDataSource)
    } else if name == metadata_name(MetadataType::EthereumContractSource) {
        Some(MetadataType::EthereumContractSource)
    } else if name == metadata_name(MetadataType::EthereumContractMapping) {
        Some(MetadataType::EthereumContractMapping)
    } else if name == metadata_name(MetadataType::EthereumContractAbi) {
        Some(MetadataType::EthereumContractAbi)
    } else if name == metadata_name(MetadataType::EthereumBlockHandlerEntity) {
        Some(MetadataType::EthereumBlockHandlerEntity)
    } else if name == metadata_name(MetadataType::EthereumBlockHandlerFilterEntity) {
        Some(MetadataType::EthereumBlockHandlerFilterEntity)
    } else if name == metadata_name(MetadataType::EthereumCallHandlerEntity) {
        Some(MetadataType::EthereumCallHandlerEntity)
    } else if name == metadata_name(MetadataType::EthereumContractEventHandler) {
        Some(MetadataType::EthereumContractEventHandler)
    } else if name == metadata_name(MetadataType::EthereumContractDataSourceTemplate) {
        Some(MetadataType::EthereumContractDataSourceTemplate)
    } else if name == metadata_name(MetadataType::EthereumContractDataSourceTemplateSource) {
        Some(MetadataType::EthereumContractDataSourceTemplateSource)
    } else if name == metadata_name(MetadataType::SubgraphError) {
        Some(MetadataType::SubgraphError)
    } else {
        None
    }
}

/// Where metadata of `kind` lives: the registry of subgraph names and the
/// assignment of deployments to nodes are global, everything else belongs
/// to a deployment.
pub open spec fn metadata_affinity(kind: MetadataType) -> Affinity {
    match kind {
        MetadataType::Subgraph | MetadataType::SubgraphDeploymentAssignment => Affinity::Primary,
        _ => Affinity::ShardLocal,
    }
}

/// Where entities of type `entity_type` in the deployment `deployment` live.
/// Only metadata of the two global kinds lives in the primary. Metadata of a
/// type that the catalog does not know stays with the deployment, and so
/// does all the data that a deployment indexes.
pub open spec fn classify_entity(entity_type: Seq<char>, deployment: Seq<char>) -> Affinity {
    if deployment == metadata_deployment() {
        match metadata_named(entity_type) {
            Some(kind) => metadata_affinity(kind),
            None => Affinity::ShardLocal,
        }
    } else {
        Affinity::ShardLocal
    }
}

/// No two kinds of metadata are stored under the same name, so that the
/// name of a kind leads back to that kind.
pub proof fn lemma_metadata_names_are_distinct(kind: MetadataType)
    ensures
        metadata_named(metadata_name(kind)) == Some(kind),
{
    reveal_strlit("Subgraph");
    reveal_strlit("SubgraphDeployment");
    reveal_strlit("SubgraphDeploymentAssignment");
    reveal_strlit("SubgraphManifest");
    reveal_strlit("EthereumContractDataSource");
    reveal_strlit("DynamicEthereumContractDataSource");
    reveal_strlit("EthereumContractSource");
    reveal_strlit("EthereumContractMapping");
    reveal_strlit("EthereumContractAbi");
    reveal_strlit("EthereumBlockHandlerEntity");
    reveal_strlit("EthereumBlockHandlerFilterEntity");
    reveal_strlit("EthereumCallHandlerEntity");
    reveal_strlit("EthereumContractEventHandler");
    reveal_strlit("EthereumContractDataSourceTemplate");
    reveal_strlit("EthereumContractDataSourceTemplateSource");
    reveal_strlit("SubgraphError");
    assert("SubgraphDeploymentAssignment"@[0] != "EthereumContractEventHandler"@[0]);
    assert("EthereumContractDataSource"@[8] != "EthereumBlockHandlerEntity"@[8]);
    assert(metadata_name(kind).len() == match kind {
        MetadataType::Subgraph => 8nat,
        MetadataType::SubgraphDeployment => 18nat,
        MetadataType::SubgraphDeploymentAssignment => 28nat,
        MetadataType::SubgraphManifest => 16nat,
        MetadataType::EthereumContractDataSource => 26nat,
        MetadataType::DynamicEthereumContractDataSource => 33nat,
        MetadataType::EthereumContractSource => 22nat,
        MetadataType::EthereumContractMapping => 23nat,
        MetadataType::EthereumContractAbi => 19nat,
        MetadataType::EthereumBlockHandlerEntity => 26nat,
        MetadataType::EthereumBlockHandlerFilterEntity => 32nat,
        MetadataType::EthereumCallHandlerEntity => 25nat,
        MetadataType::EthereumContractEventHandler => 28nat,
        MetadataType::EthereumContractDataSourceTemplate => 34nat,
        MetadataType::EthereumContractDataSourceTemplateSource => 40nat,
        MetadataType::SubgraphError => 13nat,
    });
}

/// Metadata that is addressed by the name of its kind lives where its kind
/// lives.
pub proof fn lemma_metadata_is_classified_by_kind(kind: MetadataType)
    ensures
        classify_entity(metadata_name(kind), metadata_deployment()) == metadata_affinity(kind),
{
    lemma_metadata_names_are_distinct(kind);
}

impl MetadataType {
    /// The key of the entity of this kind with the id `id`.
    pub fn key(&self, id: String) -> (key: EntityKey)
        ensures
            key@ == (EntityKeyView {
                subgraph_id: metadata_deployment(),
                entity_type: metadata_name(*self),
                entity_id: id@,
            }),
            key_affinity(key@) == metadata_affinity(*self),
    {
        proof {
            lemma_metadata_is_classified_by_kind(*self);
        }
        EntityKey {
            subgraph_id: "subgraphs".to_owned(),
            entity_type: self.as_str().to_owned(),
            entity_id: id,
        }
    }

    /// The name under which entities of this kind are stored.
    pub fn as_str(&self) -> (name: &'static str)
        ensures
            name@ == metadata_name(*self),
    {
        match self {
            MetadataType::Subgraph => "Subgraph",
            MetadataType::SubgraphDeployment => "SubgraphDeployment",
            MetadataType::SubgraphDeploymentAssignment => "SubgraphDeploymentAssignment",
            MetadataType::SubgraphManifest => "SubgraphManifest",
            MetadataType::EthereumContractDataSource => "EthereumContractDataSource",
            MetadataType::DynamicEthereumContractDataSource => "DynamicEthereumContractDataSource",
            MetadataType::EthereumContractSource => "EthereumContractSource",
            MetadataType::EthereumContractMapping => "EthereumContractMapping",
            MetadataType::EthereumContractAbi => "EthereumContractAbi",
            MetadataType::EthereumBlockHandlerEntity => "EthereumBlockHandlerEntity",
            MetadataType::EthereumBlockHandlerFilterEntity => "EthereumBlockHandlerFilterEntity",
            MetadataType::EthereumCallHandlerEntity => "EthereumCallHandlerEntity",
            MetadataType::EthereumContractEventHandler => "EthereumContractEventHandler",
            MetadataType::EthereumContractDataSourceTemplate =>
                "EthereumContractDataSourceTemplate",
            MetadataType::EthereumContractDataSourceTemplateSource =>
                "EthereumContractDataSourceTemplateSource",
            MetadataType::SubgraphError => "SubgraphError",
        }
    }

    /// The catalogued kind that is stored under `name`, if there is one.
    pub fn parse(name: &str) -> (kind: Option<MetadataType>)
        ensures
            kind == metadata_named(name@),
    {
        if same_text(name, "Subgraph") {
            Some(MetadataType::Subgraph)
        } else if same_text(name, "SubgraphDeployment") {
            Some(MetadataType::SubgraphDeployment)
        } else if same_text(name, "SubgraphDeploymentAssignment") {
            Some(MetadataType::SubgraphDeploymentAssignment)
        } else if same_text(name, "SubgraphManifest") {
            Some(MetadataType::SubgraphManifest)
        } else if same_text(name, "EthereumContractDataSource") {
            Some(MetadataType::EthereumContractDataSource)
        } else if same_text(name, "DynamicEthereumContractDataSource") {
            Some(MetadataType::DynamicEthereumContractDataSource)
        } else if same_text(name, "EthereumContractSource") {
            Some(MetadataType::EthereumContractSource)
        } else if same_text(name, "EthereumContractMapping") {
            Some(MetadataType::EthereumContractMapping)
        } else if same_text(name, "EthereumContractAbi") {
            Some(MetadataType::EthereumContractAbi)
        } else if same_text(name, "EthereumBlockHandlerEntity") {
            Some(MetadataType::EthereumBlockHandlerEntity)
        } else if same_text(name, "EthereumBlockHandlerFilterEntity") {
            Some(MetadataType::EthereumBlockHandlerFilterEntity)
        } else if same_text(name, "EthereumCallHandlerEntity") {
            Some(MetadataType::EthereumCallHandlerEntity)
        } else if same_text(name, "EthereumContractEventHandler") {
            Some(MetadataType::EthereumContractEventHandler)
        } else if same_text(name, "EthereumContractDataSourceTemplate") {
            Some(MetadataType::EthereumContractDataSourceTemplate)
        } else if same_text(name, "EthereumContractDataSourceTemplateSource") {
            Some(MetadataType::EthereumContractDataSourceTemplateSource)
        } else if same_text(name, "SubgraphError") {
            Some(MetadataType::SubgraphError)
        } else {
            None
        }
    }

    /// Where metadata of this kind lives.
    pub fn affinity(&self) -> (affinity: Affinity)
        ensures
            affinity == metadata_affinity(*self),
    {
        match self {
            MetadataType::Subgraph | MetadataType::SubgraphDeploymentAssignment => {
                Affinity::Primary
            },
            MetadataType::SubgraphDeployment
            | MetadataType::SubgraphManifest
            | MetadataType::EthereumContractDataSource
            | MetadataType::DynamicEthereumContractDataSource
            | MetadataType::EthereumContractSource
            | MetadataType::EthereumContractMapping
            | MetadataType::EthereumContractAbi
            | MetadataType::EthereumBlockHandlerEntity
            | MetadataType::EthereumBlockHandlerFilterEntity
            | MetadataType::EthereumCallHandlerEntity
            | MetadataType::EthereumContractEventHandler
            | MetadataType::EthereumContractDataSourceTemplate
            | MetadataType::EthereumContractDataSourceTemplateSource
            | MetadataType::SubgraphError => Affinity::ShardLocal,
        }
    }
}

/// Where entities of type `entity_type` in the deployment `deployment_id`
/// live.
pub fn classify(entity_type: &str, deployment_id: &str) -> (affinity: Affinity)
    ensures
        affinity == classify_entity(entity_type@, deployment_id@),
{
    if same_text(deployment_id, "subgraphs") {
        match MetadataType::parse(entity_type) {
            Some(kind) => kind.affinity(),
            None => Affinity::ShardLocal,
        }
    } else {
        Affinity::ShardLocal
    }
}

/// What an operation of a batch addresses: an entity of one type within
/// one deployment. Metadata is addressed within the metadata deployment.
#[derive(Clone, Debug, PartialEq, Eq)]
pub struct EntityKey {
    pub subgraph_id: String,
    pub entity_type: String,
    pub entity_id: String,
}

/// What an [`EntityKey`] stands for in contracts.
pub struct EntityKeyView {
    pub subgraph_id: Seq<char>,
    pub entity_type: Seq<char>,
    pub entity_id: Seq<char>,
}

impl View for EntityKey {
    type V = EntityKeyView;

    open spec fn view(&self) -> EntityKeyView {
        EntityKeyView {
            subgraph_id: self.subgraph_id@,
            entity_type: self.entity_type@,
            entity_id: self.entity_id@,
        }
    }
}

impl DeepView for EntityKey {
    type V = EntityKeyView;

    open spec fn deep_view(&self) -> EntityKeyView {
        self@
    }
}

/// Where the entity that `key` addresses lives.
pub open spec fn key_affinity(key: EntityKeyView) -> Affinity {
    classify_entity(key.entity_type, key.subgraph_id)
}

/// Whether `key` addresses data that a deployment indexes, and not metadata.
pub open spec fn is_data(key: EntityKeyView) -> bool {
    key.subgraph_id != metadata_deployment()
}

/// Whether the entity that `key` addresses lives in the shard of the
/// deployment `id`: it is local to a shard, and where it is data of a
/// deployment, that deployment is `id`.
pub open spec fn key_in_shard(key: EntityKeyView, id: Seq<char>) -> bool {
    key_affinity(key) == Affinity::ShardLocal && (is_data(key) ==> key.subgraph_id == id)
}

/// Whether every key of `keys` lives in the shard of the deployment `id`.
pub open spec fn batch_in_shard(keys: Seq<EntityKeyView>, id: Seq<char>) -> bool {
    forall|i: int| 0 <= i < keys.len() ==> key_in_shard(#[trigger] keys[i], id)
}

/// Whether `a` and `b` can stand in one batch: they live in the same kind of
/// place, and where both are data they belong to one deployment.
pub open spec fn compatible(a: EntityKeyView, b: EntityKeyView) -> bool {
    key_affinity(a) == key_affinity(b) && (is_data(a) && is_data(b) ==> a.subgraph_id
        == b.subgraph_id)
}

/// Whether `keys` is a batch that one call can carry: any two of its keys
/// are compatible.
pub open spec fn uniform(keys: Seq<EntityKeyView>) -> bool {
    forall|i: int, j: int|
        0 <= i < keys.len() && 0 <= j < keys.len() ==> compatible(
            #[trigger] keys[i],
            #[trigger] keys[j],
        )
}

impl EntityKey {
    /// Where the entity that the key addresses lives.
    pub fn affinity(&self) -> (affinity: Affinity)
        ensures
            affinity == key_affinity(self@),
    {
        classify(self.entity_type.as_str(), self.subgraph_id.as_str())
    }

    /// Whether the key addresses data that a deployment indexes.
    pub fn is_data(&self) -> (res: bool)
        ensures
            res == is_data(self@),
    {
        !same_text(self.subgraph_id.as_str(), "subgraphs")
    }

    /// Whether the entity that the key addresses lives in the shard of the
    /// deployment `id`.
    pub fn in_shard(&self, id: &str) -> (res: bool)
        ensures
            res == key_in_shard(self@, id@),
    {
        match self.affinity() {
            Affinity::Primary => false,
            Affinity::ShardLocal => !self.is_data() || same_text(self.subgraph_id.as_str(), id),
        }
    }
}

/// Whether every operation of the batch lives in the shard of the
/// deployment `id`.
pub fn in_shard(operations: &Vec<EntityKey>, id: &str) -> (res: bool)
    ensures
        res == batch_in_shard(operations.deep_view(), id@),
{
    let mut i: usize = 0;
    while i < operations.len()
        invariant
            0 <= i <= operations@.len(),
            forall|k: int| 0 <= k < i ==> key_in_shard(#[trigger] operations.deep_view()[k], id@),
        decreases operations@.len() - i,
    {
        if !operations[i].in_shard(id) {
            assert(!key_in_shard(operations.deep_view()[i as int], id@));
            return false;
        }
        i += 1;
    }
    true
}

/// Whether the batch can be carried by one call: all its operations live in
/// the same kind of place, and those on the data of a deployment are all on
/// the same deployment.
pub fn classify_batch(operations: &Vec<EntityKey>) -> (res: bool)
    ensures
        res == uniform(operations.deep_view()),
{
    let ghost keys = operations.deep_view();
    let mut owner: Option<usize> = None;
    let mut i: usize = 0;
    while i < operations.len()
        invariant
            0 <= i <= operations@.len(),
            keys == operations.deep_view(),
            forall|a: int, b: int|
                0 <= a < i && 0 <= b < i ==> compatible(#[trigger] keys[a], #[trigger] keys[b]),
            match owner {
                Some(at) => at < i && is_data(keys[at as int]),
                None => forall|k: int| 0 <= k < i ==> !is_data(#[trigger] keys[k]),
            },
        decreases operations@.len() - i,
    {
        let key = &operations[i];
        assert(key@ == keys[i as int]);
        if i > 0 {
            let first = operations[0].affinity();
            if first != key.affinity() {
                assert(!compatible(keys[0], keys[i as int]));
                return false;
            }
        }
        if key.is_data() {
            match owner {
                Some(at) => {
                    if !same_text(operations[at].subgraph_id.as_str(), key.subgraph_id.as_str()) {
                        assert(!compatible(keys[at as int], keys[i as int]));
                        return false;
                    }
                },
                None => {
                    owner = Some(i);
                },
            }
        }
        assert forall|a: int, b: int| 0 <= a < i + 1 && 0 <= b < i + 1 implies compatible(
            #[trigger] keys[a],
            #[trigger] keys[b],
        ) by {
            if i > 0 {
                assert(compatible(keys[a], keys[0]));
                assert(compatible(keys[0], keys[b]));
            }
            if owner is Some {
                assert(compatible(keys[a], keys[owner->0 as int]));
                assert(compatible(keys[owner->0 as int], keys[b]));
            }
        }
        i += 1;
    }
    true
}

/// A batch that holds an operation on a record of the primary and one on a
/// record of a deployment's shard cannot be carried by one call.
pub proof fn lemma_mixed_affinities_are_rejected(keys: Seq<EntityKeyView>, i: int, j: int)
    requires
        0 <= i < keys.len(),
        0 <= j < keys.len(),
        key_affinity(keys[i]) == Affinity::Primary,
        key_affinity(keys[j]) == Affinity::ShardLocal,
    ensures
        !uniform(keys),
{
    assert(!compatible(keys[i], keys[j]));
}

/// A batch that holds operations on the data of two different deployments
/// cannot be carried by one call.
pub proof fn lemma_two_deployments_are_rejected(keys: Seq<EntityKeyView>, i: int, j: int)
    requires
        0 <= i < keys.len(),
        0 <= j < keys.len(),
        is_data(keys[i]),
        is_data(keys[j]),
        keys[i].subgraph_id != keys[j].subgraph_id,
    ensures
        !uniform(keys),
{
    assert(!compatible(keys[i], keys[j]));
}

/// A batch that holds a record of the primary, or data of another
/// deployment than `id`, does not live in the shard of `id`.
pub proof fn lemma_batch_outside_shard(keys: Seq<EntityKeyView>, id: Seq<char>, i: int)
    requires
        0 <= i < keys.len(),
        key_affinity(keys[i]) == Affinity::Primary || (is_data(keys[i]) && keys[i].subgraph_id
            != id),
    ensures
        !batch_in_shard(keys, id),
{
    assert(!key_in_shard(keys[i], id));
}

/// A batch that mixes records of the primary with records of a shard, or
/// data of two deployments, lives in the shard of no deployment.
pub proof fn lemma_mixed_batch_is_in_no_shard(keys: Seq<EntityKeyView>, id: Seq<char>)
    requires
        !uniform(keys),
    ensures
        !batch_in_shard(keys, id),
{
    if batch_in_shard(keys, id) {
        lemma_batch_in_shard_is_uniform(keys, id);
    }
}

/// A batch whose operations all live in the shard of one deployment can be
/// carried by one call.
pub proof fn lemma_batch_in_shard_is_uniform(keys: Seq<EntityKeyView>, id: Seq<char>)
    requires
        batch_in_shard(keys, id),
    ensures
        uniform(keys),
{
}

} // verus!
