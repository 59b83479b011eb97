//! The protocols, driven against a store that lives in memory.

use sharded_store::affinity::{in_shard, EntityKey};
use sharded_store::block::BlockPointer;
use sharded_store::coordinator::Coordinator;
use sharded_store::error::StoreError;
use sharded_store::event::{EntityChange, EntityChangeOperation, StoreEvent};
use sharded_store::protocol::{Action, CreateRequest, Response, SwitchingMode};
use sharded_store::sharded_store::{Shard, ShardedStore};
use sharded_store::site::Site;

#[derive(Default)]
struct MemoryShard {
    deployments: Vec<String>,
    schemas: Vec<String>,
    grafted_from: Vec<(String, String)>,
    synced: Vec<String>,
    started: Vec<String>,
    /// deployment, base deployment, block up to which the graft copies
    pending_grafts: Vec<(String, String, BlockPointer)>,
    /// deployment, namespace of the base, number of the block copied up to
    copied: Vec<(String, String, u64)>,
    /// namespace, entity id, block at which it was written
    entities: Vec<(String, String, u64)>,
    creations: usize,
}

#[derive(Clone, Default)]
struct MemoryPrimary {
    sites: Vec<Site>,
    /// name, current deployment, pending deployment
    subgraphs: Vec<(String, Option<String>, Option<String>)>,
    assignments: Vec<(String, String)>,
    published: Vec<StoreEvent>,
    publish_fails: bool,
}

/// Why an operation on the store in memory failed.
#[derive(Debug, PartialEq)]
enum Failure {
    Store(StoreError),
    Backend { partially_applied: bool },
}

impl From<StoreError> for Failure {
    fn from(error: StoreError) -> Self {
        Failure::Store(error)
    }
}

/// What an `ExecuteInShard` or an `ExecuteInPrimary` carries out.
#[derive(Clone, Copy)]
enum Work<'a> {
    Nothing,
    InShard(&'a dyn Fn(&mut MemoryShard, &Site) -> Vec<EntityChange>),
    InPrimary(&'a dyn Fn(&mut MemoryPrimary) -> Vec<EntityChange>),
}

struct World {
    router: ShardedStore<usize>,
    shards: Vec<MemoryShard>,
    primary: MemoryPrimary,
    log: Vec<String>,
}

fn change(subgraph_id: &str, entity_type: &str, entity_id: &str, operation: EntityChangeOperation) -> EntityChange {
    EntityChange {
        subgraph_id: subgraph_id.to_string(),
        entity_type: entity_type.to_string(),
        entity_id: entity_id.to_string(),
        operation,
    }
}

fn written(subgraph_id: &str, entity_type: &str, entity_id: &str) -> EntityChange {
    change(subgraph_id, entity_type, entity_id, EntityChangeOperation::Written)
}

impl MemoryPrimary {
    fn find_site(&self, deployment: &str) -> Option<Site> {
        self.sites.iter().find(|site| site.deployment == deployment).cloned()
    }

    fn allocate_site(&mut self, shard: &str, deployment: &str) -> Site {
        if let Some(site) = self.find_site(deployment) {
            return site;
        }
        let site = Site {
            deployment: deployment.to_string(),
            shard: shard.to_string(),
            namespace: format!("sgd{}", self.sites.len() + 1),
        };
        self.sites.push(site.clone());
        site
    }

    fn create_subgraph_version(
        &mut self,
        name: &str,
        deployment: &str,
        node_id: &str,
        mode: SwitchingMode,
        exists_and_synced: &dyn Fn(&str) -> Result<bool, StoreError>,
    ) -> Result<Vec<EntityChange>, StoreError> {
        if !self.subgraphs.iter().any(|(known, _, _)| known == name) {
            self.subgraphs.push((name.to_string(), None, None));
        }
        let at = self.subgraphs.iter().position(|(known, _, _)| known == name).unwrap();
        let current_synced = match &self.subgraphs[at].1 {
            Some(current) => exists_and_synced(current)?,
            None => false,
        };
        let mut changes = Vec::new();
        if mode == SwitchingMode::Synced && current_synced {
            self.subgraphs[at].2 = Some(deployment.to_string());
        } else {
            self.subgraphs[at].1 = Some(deployment.to_string());
            self.subgraphs[at].2 = None;
            changes.push(written("subgraphs", "Subgraph", name));
        }
        if !self.assignments.iter().any(|(assigned, _)| assigned == deployment) {
            self.assignments.push((deployment.to_string(), node_id.to_string()));
            changes.push(written("subgraphs", "SubgraphDeploymentAssignment", deployment));
        }
        Ok(changes)
    }

    fn promote_deployment(&mut self, deployment: &str) -> Vec<EntityChange> {
        let mut changes = Vec::new();
        for (name, current, pending) in self.subgraphs.iter_mut() {
            if pending.as_deref() == Some(deployment) {
                *current = pending.take();
                changes.push(written("subgraphs", "Subgraph", name));
            }
        }
        changes
    }
}

impl World {
    fn new() -> World {
        World {
            router: ShardedStore::new(vec![Shard { name: "primary".to_string(), store: 0 }]),
            shards: vec![MemoryShard::default()],
            primary: MemoryPrimary::default(),
            log: Vec::new(),
        }
    }

    fn shard(&mut self, site: &Site) -> Result<&mut MemoryShard, StoreError> {
        let at = *self.router.shard(&site.shard)?;
        Ok(&mut self.shards[at])
    }

    /// Performs the actions of a protocol until it ends.
    fn drive(&mut self, begin: (Coordinator, Action), work: Work<'_>) -> Result<(), Failure> {
        let (mut state, mut action) = begin;
        loop {
            let response = match action {
                Action::AllocateSite { shard, deployment } => {
                    Response::SiteFound { site: self.primary.allocate_site(&shard, &deployment) }
                }
                Action::FindExistingSite { deployment } => match self.primary.find_site(&deployment) {
                    Some(site) => Response::SiteFound { site },
                    None => Response::Failed,
                },
                Action::CheckExists { site } => {
                    let present = self.shard(&site)?.deployments.contains(&site.deployment);
                    Response::Exists { present }
                }
                Action::CreateInShard { site, graft_base } => {
                    let shard = self.shard(&site)?;
                    shard.creations += 1;
                    if !shard.deployments.contains(&site.deployment) {
                        shard.deployments.push(site.deployment.clone());
                    }
                    if !shard.schemas.contains(&site.namespace) {
                        shard.schemas.push(site.namespace.clone());
                    }
                    if let Some(base) = graft_base {
                        shard.grafted_from.push((site.deployment.clone(), base.namespace));
                    }
                    self.log.push("create in shard".to_string());
                    Response::Changes {
                        changes: vec![written("subgraphs", "SubgraphDeployment", &site.deployment)],
                    }
                }
                Action::CreateSubgraphVersion { name, deployment, node_id, mode } => {
                    let sites = self.primary.sites.clone();
                    let router = &self.router;
                    let shards = &self.shards;
                    let exists_and_synced = |id: &str| -> Result<bool, StoreError> {
                        let found = sites.iter().find(|site| site.deployment == id).cloned();
                        let (at, _) = router.store(id, found)?;
                        let shard = &shards[*at];
                        Ok(shard.deployments.iter().any(|known| known == id)
                            && shard.synced.iter().any(|known| known == id))
                    };
                    let changes = self.primary.create_subgraph_version(
                        &name,
                        &deployment,
                        &node_id,
                        mode,
                        &exists_and_synced,
                    )?;
                    self.log.push("create version".to_string());
                    Response::Changes { changes }
                }
                Action::GraftPending { site } => {
                    let base = self
                        .shard(&site)?
                        .pending_grafts
                        .iter()
                        .find(|(deployment, _, _)| *deployment == site.deployment)
                        .map(|(_, base, block)| (base.clone(), block.clone()));
                    Response::GraftPending { base }
                }
                Action::StartSubgraph { site, graft_base } => {
                    let shard = self.shard(&site)?;
                    shard.started.push(site.deployment.clone());
                    if let Some((base, block)) = graft_base {
                        shard.copied.push((site.deployment.clone(), base.namespace, block.number));
                    }
                    Response::Done
                }
                Action::PromoteDeployment { deployment } => {
                    self.log.push("promote".to_string());
                    Response::Changes { changes: self.primary.promote_deployment(&deployment) }
                }
                Action::SetSynced { site } => {
                    self.shard(&site)?.synced.push(site.deployment.clone());
                    self.log.push("set synced".to_string());
                    Response::Done
                }
                Action::ExecuteInShard { site } => match work {
                    Work::InShard(mutation) => {
                        Response::Changes { changes: mutation(self.shard(&site)?, &site) }
                    }
                    _ => Response::Failed,
                },
                Action::ExecuteInPrimary => match work {
                    Work::InPrimary(mutation) => {
                        let before = self.primary.clone();
                        let changes = mutation(&mut self.primary);
                        if self.primary.publish_fails {
                            self.primary = before;
                            Response::Failed
                        } else {
                            self.primary.published.push(StoreEvent::new(changes));
                            self.log.push("publish".to_string());
                            Response::Done
                        }
                    }
                    _ => Response::Failed,
                },
                Action::Publish { event } => {
                    if self.primary.publish_fails {
                        Response::Failed
                    } else {
                        self.primary.published.push(event);
                        self.log.push("publish".to_string());
                        Response::Done
                    }
                }
                Action::Done => return Ok(()),
                Action::Fail { error } => return Err(Failure::Store(error)),
                Action::Abort { partially_applied } => {
                    return Err(Failure::Backend { partially_applied })
                }
            };
            (state, action) = state.step(response);
        }
    }

    fn create(&mut self, deployment: &str, mode: SwitchingMode, replace: bool) -> Result<(), Failure> {
        self.create_grafted(deployment, None, mode, replace)
    }

    fn create_grafted(
        &mut self,
        deployment: &str,
        graft_base: Option<&str>,
        mode: SwitchingMode,
        replace: bool,
    ) -> Result<(), Failure> {
        let request = CreateRequest {
            name: "example/subgraph".to_string(),
            deployment: deployment.to_string(),
            graft_base: graft_base.map(|base| base.to_string()),
            node_id: "node-1".to_string(),
            mode,
        };
        let begin = if replace {
            self.router.create_deployment_replace(request)
        } else {
            self.router.create_subgraph_deployment(request)
        };
        self.drive(begin, Work::Nothing)
    }

    fn transact(&mut self, deployment: &str, entity_id: &str, block: u64) -> Result<(), Failure> {
        let mods = vec![EntityKey {
            subgraph_id: deployment.to_string(),
            entity_type: "Thing".to_string(),
            entity_id: entity_id.to_string(),
        }];
        assert!(in_shard(&mods, deployment), "can only transact operations within one shard");
        let found = self.primary.find_site(deployment);
        let begin = self.router.transact_block_operations(deployment, found, &mods)?;
        self.drive(
            begin,
            Work::InShard(&|shard, site| {
                shard.entities.push((site.namespace.clone(), entity_id.to_string(), block));
                vec![written(&site.deployment, "Thing", entity_id)]
            }),
        )
    }

    fn revert(&mut self, deployment: &str, block: u64) -> Result<(), Failure> {
        let found = self.primary.find_site(deployment);
        let begin = self.router.revert_block_operations(deployment, found)?;
        self.drive(begin, Work::InShard(&|shard, site| {
            let mut changes = Vec::new();
            shard.entities.retain(|(namespace, id, at)| {
                let gone = *namespace == site.namespace && *at > block;
                if gone {
                    changes_push(&mut changes, &site.deployment, id);
                }
                !gone
            });
            changes
        }))
    }

    fn remove_subgraph(&mut self, name: &str) -> Result<(), Failure> {
        let begin = self.router.remove_subgraph();
        self.drive(
            begin,
            Work::InPrimary(&|primary| {
                primary.subgraphs.retain(|(known, _, _)| known != name);
                vec![change("subgraphs", "Subgraph", name, EntityChangeOperation::Removed)]
            }),
        )
    }

    fn reassign_subgraph(&mut self, deployment: &str, node_id: &str) -> Result<(), Failure> {
        let begin = self.router.reassign_subgraph();
        self.drive(
            begin,
            Work::InPrimary(&|primary| {
                for (assigned, node) in primary.assignments.iter_mut() {
                    if assigned == deployment {
                        *node = node_id.to_string();
                    }
                }
                vec![written("subgraphs", "SubgraphDeploymentAssignment", deployment)]
            }),
        )
    }

    fn start(&mut self, deployment: &str) -> Result<(), Failure> {
        let found = self.primary.find_site(deployment);
        let begin = self.router.start_subgraph_deployment(deployment, found)?;
        self.drive(begin, Work::Nothing)
    }

    fn get(&self, deployment: &str, entity_id: &str) -> Result<Option<String>, StoreError> {
        let found = self.primary.find_site(deployment);
        let (at, site) = self.router.store(deployment, found)?;
        Ok(self.shards[*at]
            .entities
            .iter()
            .find(|(namespace, id, _)| *namespace == site.namespace && id == entity_id)
            .map(|(_, id, _)| id.clone()))
    }

    fn synced(&mut self, deployment: &str) -> Result<(), Failure> {
        let found = self.primary.find_site(deployment);
        let begin = self.router.deployment_synced(deployment, found)?;
        self.drive(begin, Work::Nothing)
    }
}

fn changes_push(changes: &mut Vec<EntityChange>, deployment: &str, id: &str) {
    changes.push(change(deployment, "Thing", id, EntityChangeOperation::Removed));
}

#[test]
fn an_entity_is_there_after_its_block_and_gone_after_the_revert() {
    let mut world = World::new();
    world.create("sg-1", SwitchingMode::Instant, false).unwrap();
    assert_eq!(world.get("sg-1", "E1"), Ok(None));
    world.transact("sg-1", "E1", 1).unwrap();
    assert_eq!(world.get("sg-1", "E1"), Ok(Some("E1".to_string())));
    world.revert("sg-1", 0).unwrap();
    assert_eq!(world.get("sg-1", "E1"), Ok(None));
    assert_eq!(
        world.primary.published,
        vec![
            StoreEvent::new(vec![
                written("subgraphs", "SubgraphDeployment", "sg-1"),
                written("subgraphs", "Subgraph", "example/subgraph"),
                written("subgraphs", "SubgraphDeploymentAssignment", "sg-1"),
            ]),
            StoreEvent::new(vec![written("sg-1", "Thing", "E1")]),
            StoreEvent::new(vec![change("sg-1", "Thing", "E1", EntityChangeOperation::Removed)]),
        ]
    );
}

#[test]
fn reading_a_deployment_that_was_never_created_fails() {
    let world = World::new();
    assert_eq!(world.get("sg-1", "E1"), Err(StoreError::DeploymentNotFound("sg-1".to_string())));
}

#[test]
fn a_synced_version_stays_active_under_the_synced_policy() {
    let mut world = World::new();
    world.create("sg-1", SwitchingMode::Synced, false).unwrap();
    world.synced("sg-1").unwrap();
    assert_eq!(
        world.primary.subgraphs,
        vec![("example/subgraph".to_string(), Some("sg-1".to_string()), None)]
    );
    world.create("sg-2", SwitchingMode::Synced, false).unwrap();
    assert_eq!(
        world.primary.subgraphs,
        vec![("example/subgraph".to_string(), Some("sg-1".to_string()), Some("sg-2".to_string()))]
    );
    assert_eq!(
        world.primary.published.last(),
        Some(&StoreEvent::new(vec![
            written("subgraphs", "SubgraphDeployment", "sg-2"),
            written("subgraphs", "SubgraphDeploymentAssignment", "sg-2"),
        ]))
    );
    assert!(world.primary.assignments.contains(&("sg-2".to_string(), "node-1".to_string())));
}

#[test]
fn an_unsynced_version_is_replaced_under_the_synced_policy() {
    let mut world = World::new();
    world.create("sg-1", SwitchingMode::Synced, false).unwrap();
    world.create("sg-2", SwitchingMode::Synced, false).unwrap();
    assert_eq!(
        world.primary.subgraphs,
        vec![("example/subgraph".to_string(), Some("sg-2".to_string()), None)]
    );
}

#[test]
fn creating_a_deployment_twice_changes_the_shard_once() {
    let mut world = World::new();
    world.create("sg-1", SwitchingMode::Instant, false).unwrap();
    assert_eq!(world.shards[0].creations, 1);
    assert_eq!(world.shards[0].schemas, vec!["sgd1".to_string()]);
    world.create("sg-1", SwitchingMode::Instant, false).unwrap();
    assert_eq!(world.shards[0].creations, 1);
    assert_eq!(world.shards[0].schemas, vec!["sgd1".to_string()]);
    assert_eq!(world.primary.sites.len(), 1);
    assert_eq!(world.primary.published.len(), 2);
    assert_eq!(
        world.primary.published[1],
        StoreEvent::new(vec![written("subgraphs", "Subgraph", "example/subgraph")])
    );
    world.create("sg-1", SwitchingMode::Instant, true).unwrap();
    assert_eq!(world.shards[0].creations, 2);
    assert_eq!(
        world.primary.published[2],
        StoreEvent::new(vec![
            written("subgraphs", "SubgraphDeployment", "sg-1"),
            written("subgraphs", "Subgraph", "example/subgraph"),
        ])
    );
}

#[test]
fn a_graft_within_the_shard_copies_from_the_base() {
    let mut world = World::new();
    world.create("sg-1", SwitchingMode::Instant, false).unwrap();
    world.create_grafted("sg-2", Some("sg-1"), SwitchingMode::Instant, false).unwrap();
    assert_eq!(world.shards[0].grafted_from, vec![("sg-2".to_string(), "sgd1".to_string())]);
}

#[test]
fn a_graft_from_another_shard_is_refused_before_anything_is_written() {
    let mut world = World::new();
    world.primary.sites.push(Site {
        deployment: "sg-1".to_string(),
        shard: "shard_b".to_string(),
        namespace: "sgd1".to_string(),
    });
    assert_eq!(
        world.create_grafted("sg-2", Some("sg-1"), SwitchingMode::Instant, false),
        Err(Failure::Store(StoreError::ConstraintViolation(
            "Can not graft across shards. sg-2 is in shard primary, and the base sg-1 is in shard shard_b"
                .to_string()
        )))
    );
    assert_eq!(world.shards[0].creations, 0);
    assert!(world.primary.published.is_empty());
}

#[test]
fn promotion_publishes_one_event_after_both_commits() {
    let mut world = World::new();
    world.create("sg-1", SwitchingMode::Synced, false).unwrap();
    world.synced("sg-1").unwrap();
    world.create("sg-2", SwitchingMode::Synced, false).unwrap();
    world.log.clear();
    let before = world.primary.published.len();
    world.synced("sg-2").unwrap();
    assert_eq!(world.log, vec!["promote".to_string(), "set synced".to_string(), "publish".to_string()]);
    assert_eq!(world.primary.published.len(), before + 1);
    assert_eq!(
        world.primary.published.last(),
        Some(&StoreEvent::new(vec![written("subgraphs", "Subgraph", "example/subgraph")]))
    );
    assert_eq!(
        world.primary.subgraphs,
        vec![("example/subgraph".to_string(), Some("sg-2".to_string()), None)]
    );
    assert!(world.shards[0].synced.contains(&"sg-2".to_string()));
}

#[test]
fn starting_a_deployment_publishes_nothing() {
    let mut world = World::new();
    world.create("sg-1", SwitchingMode::Instant, false).unwrap();
    let before = world.primary.published.len();
    world.start("sg-1").unwrap();
    assert_eq!(world.shards[0].started, vec!["sg-1".to_string()]);
    assert!(world.shards[0].copied.is_empty());
    assert_eq!(world.primary.published.len(), before);
}

#[test]
fn starting_a_grafted_deployment_copies_up_to_the_pending_block() {
    let mut world = World::new();
    world.create("sg-1", SwitchingMode::Instant, false).unwrap();
    world.create_grafted("sg-2", Some("sg-1"), SwitchingMode::Instant, false).unwrap();
    world.shards[0].pending_grafts.push((
        "sg-2".to_string(),
        "sg-1".to_string(),
        BlockPointer { hash: vec![7; 32], number: 42 },
    ));
    world.start("sg-2").unwrap();
    assert_eq!(world.shards[0].started, vec!["sg-2".to_string()]);
    assert_eq!(world.shards[0].copied, vec![("sg-2".to_string(), "sgd1".to_string(), 42)]);
}

#[test]
fn starting_fails_if_the_base_of_the_graft_has_no_site() {
    let mut world = World::new();
    world.create("sg-2", SwitchingMode::Instant, false).unwrap();
    world.shards[0].pending_grafts.push((
        "sg-2".to_string(),
        "sg-1".to_string(),
        BlockPointer { hash: vec![7; 32], number: 42 },
    ));
    assert_eq!(world.start("sg-2"), Err(Failure::Backend { partially_applied: false }));
    assert!(world.shards[0].started.is_empty());
}

#[test]
fn removing_a_subgraph_publishes_within_its_transaction() {
    let mut world = World::new();
    world.create("sg-1", SwitchingMode::Instant, false).unwrap();
    world.log.clear();
    let before = world.primary.published.len();
    world.remove_subgraph("example/subgraph").unwrap();
    assert!(world.primary.subgraphs.is_empty());
    assert_eq!(world.log, vec!["publish".to_string()]);
    assert_eq!(world.primary.published.len(), before + 1);
    assert_eq!(
        world.primary.published.last(),
        Some(&StoreEvent::new(vec![change(
            "subgraphs",
            "Subgraph",
            "example/subgraph",
            EntityChangeOperation::Removed
        )]))
    );
}

#[test]
fn reassigning_changes_nothing_if_the_publication_fails() {
    let mut world = World::new();
    world.create("sg-1", SwitchingMode::Instant, false).unwrap();
    let before = world.primary.published.len();
    world.primary.publish_fails = true;
    assert_eq!(
        world.reassign_subgraph("sg-1", "node-2"),
        Err(Failure::Backend { partially_applied: false })
    );
    assert_eq!(world.primary.assignments, vec![("sg-1".to_string(), "node-1".to_string())]);
    world.primary.publish_fails = false;
    assert_eq!(world.primary.published.len(), before);
    world.reassign_subgraph("sg-1", "node-2").unwrap();
    assert_eq!(world.primary.assignments, vec![("sg-1".to_string(), "node-2".to_string())]);
    assert_eq!(
        world.primary.published.last(),
        Some(&StoreEvent::new(vec![written("subgraphs", "SubgraphDeploymentAssignment", "sg-1")]))
    );
}

#[test]
fn a_block_stays_written_if_its_publication_fails() {
    let mut world = World::new();
    world.create("sg-1", SwitchingMode::Instant, false).unwrap();
    world.primary.publish_fails = true;
    assert_eq!(world.transact("sg-1", "E1", 1), Err(Failure::Backend { partially_applied: true }));
    assert_eq!(world.get("sg-1", "E1"), Ok(Some("E1".to_string())));
}
