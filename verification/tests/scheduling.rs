use transform2d::schedule::plan_edge_indices;
use transform2d::schedule::topological_ranks;
use transform2d::schedule::MissingPluginPolicy;
use transform2d::schedule::PhysicsBackend;
use transform2d::schedule::ScheduleConfig;
use transform2d::schedule::ScheduleError;
use transform2d::schedule::Stage;
use transform2d::schedule::SyncPoint;
use transform2d::schedule::Transform2dPlugin;
use transform2d::schedule::N_SYNC_POINTS;

fn config(
    backend: PhysicsBackend,
    physics_installed: bool,
    policy: MissingPluginPolicy,
) -> ScheduleConfig {
    ScheduleConfig { backend, physics_installed, policy }
}

#[test]
fn base_plan_without_physics() {
    let plan = Transform2dPlugin
        .build(&config(PhysicsBackend::Disabled, false, MissingPluginPolicy::Fail))
        .unwrap();
    assert!(!plan.degraded);
    assert_eq!(plan.edges.len(), 2);
    assert_eq!(plan.edges[0].stage, Stage::PostStartup);
    assert_eq!(plan.edges[0].before, SyncPoint::SyncTransform2dTo3d);
    assert_eq!(plan.edges[0].after, SyncPoint::TransformPropagate);
    assert_eq!(plan.edges[1].stage, Stage::PostUpdate);
    assert_eq!(plan.edges[1].before, SyncPoint::SyncTransform2dTo3d);
    assert_eq!(plan.edges[1].after, SyncPoint::TransformPropagate);
}

#[test]
fn physics_plan_adds_both_directions() {
    let plan = Transform2dPlugin
        .build(&config(PhysicsBackend::Impulse, true, MissingPluginPolicy::Fail))
        .unwrap();
    assert!(!plan.degraded);
    assert_eq!(plan.edges.len(), 4);
    assert_eq!(plan.edges[2].before, SyncPoint::SyncTransform2dTo3d);
    assert_eq!(plan.edges[2].after, SyncPoint::PhysicsSyncBackend);
    assert_eq!(plan.edges[3].before, SyncPoint::PhysicsWriteback);
    assert_eq!(plan.edges[3].after, SyncPoint::SyncTransform3dTo2d);
    let other = Transform2dPlugin
        .build(&config(PhysicsBackend::PositionBased, true, MissingPluginPolicy::Warn))
        .unwrap();
    assert_eq!(other.edges.len(), 4);
}

#[test]
fn missing_physics_fails_under_fail_policy() {
    let r = Transform2dPlugin.build(&config(PhysicsBackend::Impulse, false, MissingPluginPolicy::Fail));
    assert_eq!(r.unwrap_err(), ScheduleError::MissingPhysicsPlugin);
}

#[test]
fn missing_physics_degrades_under_warn_policy() {
    let plan = Transform2dPlugin
        .build(&config(PhysicsBackend::PositionBased, false, MissingPluginPolicy::Warn))
        .unwrap();
    assert!(plan.degraded);
    assert_eq!(plan.edges.len(), 2);
}

#[test]
fn built_plans_are_acyclic() {
    for installed in [false, true] {
        let plan = Transform2dPlugin
            .build(&config(PhysicsBackend::Impulse, installed, MissingPluginPolicy::Warn))
            .unwrap();
        let edges = plan_edge_indices(&plan);
        let ranks = topological_ranks(N_SYNC_POINTS, &edges).unwrap();
        for (src, dst) in edges {
            assert!(ranks[src] < ranks[dst]);
        }
    }
}

#[test]
fn cyclic_edges_are_rejected() {
    let edges = vec![(0usize, 1usize), (1, 0)];
    let stuck = topological_ranks(2, &edges).unwrap_err();
    assert_eq!(stuck, vec![true, true]);
}

#[test]
fn chain_gets_increasing_ranks() {
    let edges = vec![(2usize, 1usize), (1, 0)];
    let ranks = topological_ranks(3, &edges).unwrap();
    assert!(ranks[2] < ranks[1]);
    assert!(ranks[1] < ranks[0]);
}
