//! Declarative scheduling of the two synchronisation passes.
//!
//! The passes in [`crate::systems`] are only correct if the host runs them at
//! the right points of its update pipeline: the 2D-to-3D pass must run before
//! the host propagates transforms (and before a physics backend consumes
//! them), and the 3D-to-2D pass must run after the physics backend has
//! written poses back — never both over the same entity within one pass of
//! the pipeline, or each one's writes would feed the other's change filter.
//!
//! That ordering cannot be enforced from inside the passes, so it is
//! expressed here as data: [`Transform2dPlugin::build`] turns a
//! configuration into an explicit list of `runs-before` edges against named
//! anchor points, to be handed to the host scheduler and validated once at
//! startup with [`topological_ranks`].

use vstd::prelude::*;

verus! {

/// The pipeline stages of the host that this plugin schedules work in.
#[derive(Clone, Copy, Debug, PartialEq, Eq, Structural)]
pub enum Stage {
    /// Runs once, after the host's startup logic.
    PostStartup,
    /// Runs every frame, after the game's own update logic.
    PostUpdate,
}

/// The units of work whose relative order matters: the two synchronisation
/// passes, and the host-owned anchor points they are ordered against.
#[derive(Clone, Copy, Debug, PartialEq, Eq, Structural)]
pub enum SyncPoint {
    /// The 2D-to-3D pass of [`crate::systems`].
    SyncTransform2dTo3d,
    /// The 3D-to-2D pass of [`crate::systems`].
    SyncTransform3dTo2d,
    /// The host's transform propagation step.
    TransformPropagate,
    /// The point where a physics backend reads the native poses in.
    PhysicsSyncBackend,
    /// The point where a physics backend writes simulated poses back.
    PhysicsWriteback,
}

/// One `runs-before` constraint within a stage.
#[derive(Clone, Copy, Debug, PartialEq, Eq, Structural)]
pub struct OrderingEdge {
    pub stage: Stage,
    pub before: SyncPoint,
    pub after: SyncPoint,
}

/// Which physics integration, if any, the host runs.  The two supported
/// integrations differ only in which host labels the two anchor points bind
/// to, so they produce the same abstract edges.
#[derive(Clone, Copy, Debug, PartialEq, Eq, Structural)]
pub enum PhysicsBackend {
    /// No physics: the 3D-to-2D pass is never scheduled.
    Disabled,
    /// An impulse-based integration.
    Impulse,
    /// A position-based integration.
    PositionBased,
}

/// What to do when a physics backend is configured but its plugin is not
/// installed.  Both behaviours are deliberate policies a host may pick:
/// failing startup outright, or continuing in a visibly degraded state in
/// which the writeback synchronisation never runs.
#[derive(Clone, Copy, Debug, PartialEq, Eq, Structural)]
pub enum MissingPluginPolicy {
    /// Keep the base schedule and mark the plan degraded.
    Warn,
    /// Refuse to build the schedule.
    Fail,
}

#[derive(Clone, Copy, Debug, PartialEq, Eq, Structural)]
pub enum ScheduleError {
    /// A physics backend was configured, its plugin is missing, and the
    /// policy is [`MissingPluginPolicy::Fail`].
    MissingPhysicsPlugin,
}

/// The configuration [`Transform2dPlugin::build`] resolves at startup.
#[derive(Clone, Copy, Debug)]
pub struct ScheduleConfig {
    pub backend: PhysicsBackend,
    /// Whether the configured backend's plugin is actually installed.
    pub physics_installed: bool,
    pub policy: MissingPluginPolicy,
}

/// The edges to register with the host scheduler, and whether the plan is a
/// degraded fallback (physics was configured but missing, under
/// [`MissingPluginPolicy::Warn`]).
#[derive(Clone, Debug)]
pub struct SchedulePlan {
    pub edges: Vec<OrderingEdge>,
    pub degraded: bool,
}

/// The edges every configuration registers: the 2D-to-3D pass runs before
/// transform propagation, once at startup (so the first frame renders
/// correct poses even for entities nothing has touched) and once per frame.
pub open spec fn base_edges() -> Seq<OrderingEdge> {
    seq![
        OrderingEdge {
            stage: Stage::PostStartup,
            before: SyncPoint::SyncTransform2dTo3d,
            after: SyncPoint::TransformPropagate,
        },
        OrderingEdge {
            stage: Stage::PostUpdate,
            before: SyncPoint::SyncTransform2dTo3d,
            after: SyncPoint::TransformPropagate,
        },
    ]
}

/// The extra per-frame edges a physics integration needs: the 2D-to-3D pass
/// runs before the backend reads poses in, and the 3D-to-2D pass runs after
/// the backend writes them back.  Together with the base edges this keeps
/// the two passes on opposite sides of the physics step, so at most one
/// direction runs per entity within one update pass.
pub open spec fn physics_edges() -> Seq<OrderingEdge> {
    seq![
        OrderingEdge {
            stage: Stage::PostUpdate,
            before: SyncPoint::SyncTransform2dTo3d,
            after: SyncPoint::PhysicsSyncBackend,
        },
        OrderingEdge {
            stage: Stage::PostUpdate,
            before: SyncPoint::PhysicsWriteback,
            after: SyncPoint::SyncTransform3dTo2d,
        },
    ]
}

/// The edges a plan holds, with or without the physics integration.
pub open spec fn planned_edges(with_physics: bool) -> Seq<OrderingEdge> {
    if with_physics {
        base_edges() + physics_edges()
    } else {
        base_edges()
    }
}

/// A marker naming the set of work this plugin schedules, so hosts can order
/// their own systems against the whole of it.
#[derive(Clone, Copy, Debug, Hash, PartialEq, Eq, Structural)]
pub struct Transform2dPropagate;

/// The plugin: resolves a [`ScheduleConfig`] into the [`SchedulePlan`] to
/// register with the host scheduler.
#[derive(Clone, Copy, Debug, Default)]
pub struct Transform2dPlugin;

impl Transform2dPlugin {
    /// Build the ordering plan for `config`.
    ///
    /// Succeeds for every configuration except a configured-but-missing
    /// physics backend under [`MissingPluginPolicy::Fail`]; under
    /// [`MissingPluginPolicy::Warn`] that case degrades to the base plan
    /// instead, with the plan marked so the host can report it.
    pub fn build(&self, config: &ScheduleConfig) -> (r: Result<SchedulePlan, ScheduleError>)
        ensures
            config.backend is Disabled ==> (r matches Ok(p) && p.edges@ == planned_edges(false)
                && !p.degraded),
            config.backend !is Disabled && config.physics_installed ==> (r matches Ok(p)
                && p.edges@ == planned_edges(true) && !p.degraded),
            config.backend !is Disabled && !config.physics_installed && config.policy is Warn
                ==> (r matches Ok(p) && p.edges@ == planned_edges(false) && p.degraded),
            config.backend !is Disabled && !config.physics_installed && config.policy is Fail
                ==> (r matches Err(e) && e is MissingPhysicsPlugin),
    {
        match config.backend {
            PhysicsBackend::Disabled => Ok(
                SchedulePlan { edges: plan_edges(false), degraded: false },
            ),
            _ => {
                if config.physics_installed {
                    Ok(SchedulePlan { edges: plan_edges(true), degraded: false })
                } else {
                    match config.policy {
                        MissingPluginPolicy::Warn => Ok(
                            SchedulePlan { edges: plan_edges(false), degraded: true },
                        ),
                        MissingPluginPolicy::Fail => Err(ScheduleError::MissingPhysicsPlugin),
                    }
                }
            },
        }
    }
}

/// Build the edge list of [`planned_edges`] as a vector.
fn plan_edges(with_physics: bool) -> (v: Vec<OrderingEdge>)
    ensures
        v@ == planned_edges(with_physics),
{
    let mut v: Vec<OrderingEdge> = Vec::new();
    v.push(
        OrderingEdge {
            stage: Stage::PostStartup,
            before: SyncPoint::SyncTransform2dTo3d,
            after: SyncPoint::TransformPropagate,
        },
    );
    v.push(
        OrderingEdge {
            stage: Stage::PostUpdate,
            before: SyncPoint::SyncTransform2dTo3d,
            after: SyncPoint::TransformPropagate,
        },
    );
    if with_physics {
        v.push(
            OrderingEdge {
                stage: Stage::PostUpdate,
                before: SyncPoint::SyncTransform2dTo3d,
                after: SyncPoint::PhysicsSyncBackend,
            },
        );
        v.push(
            OrderingEdge {
                stage: Stage::PostUpdate,
                before: SyncPoint::PhysicsWriteback,
                after: SyncPoint::SyncTransform3dTo2d,
            },
        );
        proof {
            assert(v@ =~= planned_edges(true));
        }
    } else {
        proof {
            assert(v@ =~= planned_edges(false));
        }
    }
    v
}

/// How many [`SyncPoint`]s there are.
pub const N_SYNC_POINTS: usize = 5;

/// A fixed numbering of the sync points.
pub open spec fn node_id(p: SyncPoint) -> int {
    match p {
        SyncPoint::SyncTransform2dTo3d => 0,
        SyncPoint::SyncTransform3dTo2d => 1,
        SyncPoint::TransformPropagate => 2,
        SyncPoint::PhysicsSyncBackend => 3,
        SyncPoint::PhysicsWriteback => 4,
    }
}

/// The numbering of a sync point, for feeding a plan to
/// [`topological_ranks`].
pub fn node_id_of(p: SyncPoint) -> (i: usize)
    ensures
        i as int == node_id(p),
        i < N_SYNC_POINTS,
{
    match p {
        SyncPoint::SyncTransform2dTo3d => 0,
        SyncPoint::SyncTransform3dTo2d => 1,
        SyncPoint::TransformPropagate => 2,
        SyncPoint::PhysicsSyncBackend => 3,
        SyncPoint::PhysicsWriteback => 4,
    }
}

/// A plan's edges as pairs of node numbers, for [`topological_ranks`].
pub fn plan_edge_indices(plan: &SchedulePlan) -> (v: Vec<(usize, usize)>)
    ensures
        v@.len() == plan.edges@.len(),
        forall|k: int|
            0 <= k < plan.edges@.len() ==> edge_src(v@, k) == node_id(plan.edges@[k].before)
                && edge_dst(v@, k) == node_id(plan.edges@[k].after),
        forall|k: int|
            0 <= k < v@.len() ==> edge_src(v@, k) < N_SYNC_POINTS && edge_dst(v@, k)
                < N_SYNC_POINTS,
{
    let n = plan.edges.len();
    let mut v: Vec<(usize, usize)> = Vec::new();
    let mut i: usize = 0;
    while i < n
        invariant
            n == plan.edges@.len(),
            0 <= i <= n,
            v@.len() == i as int,
            forall|k: int|
                0 <= k < i ==> edge_src(v@, k) == node_id(plan.edges@[k].before) && edge_dst(
                    v@,
                    k,
                ) == node_id(plan.edges@[k].after),
            forall|k: int|
                0 <= k < i ==> edge_src(v@, k) < N_SYNC_POINTS && edge_dst(v@, k) < N_SYNC_POINTS,
        decreases n - i,
    {
        let e = plan.edges[i];
        let src = node_id_of(e.before);
        let dst = node_id_of(e.after);
        let ghost old_v = v@;
        v.push((src, dst));
        proof {
            assert forall|k: int|
                0 <= k < i + 1 implies edge_src(v@, k) == node_id(plan.edges@[k].before)
                && edge_dst(v@, k) == node_id(plan.edges@[k].after) && edge_src(v@, k)
                < N_SYNC_POINTS && edge_dst(v@, k) < N_SYNC_POINTS by {
                if k < i {
                    assert(v@[k] == old_v[k]);
                    assert(edge_src(old_v, k) == node_id(plan.edges@[k].before));
                    assert(edge_dst(old_v, k) == node_id(plan.edges@[k].after));
                } else {
                    assert(v@[k] == (src, dst));
                }
            }
        }
        i = i + 1;
    }
    v
}

/// The source node of an edge, as an unbounded integer.
pub open spec fn edge_src(edges: Seq<(usize, usize)>, k: int) -> int {
    edges[k].0 as int
}

/// The target node of an edge, as an unbounded integer.
pub open spec fn edge_dst(edges: Seq<(usize, usize)>, k: int) -> int {
    edges[k].1 as int
}

/// Whether some edge into `v` starts at a node the mask has not placed.
#[verifier::opaque]
spec fn blocked(v: int, edges: Seq<(usize, usize)>, placed: Seq<bool>) -> bool {
    exists|k: int| 0 <= k < edges.len() && edge_dst(edges, k) == v && !placed[edge_src(edges, k)]
}

/// The executable check for [`blocked`].
fn has_unplaced_pred(v: usize, edges: &Vec<(usize, usize)>, placed: &Vec<bool>) -> (b: bool)
    requires
        forall|k: int|
            0 <= k < edges@.len() ==> edge_src(edges@, k) < placed@.len() && edge_dst(edges@, k)
                < placed@.len(),
    ensures
        b == blocked(v as int, edges@, placed@),
{
    proof {
        reveal(blocked);
    }
    let m = edges.len();
    let mut t: usize = 0;
    let mut found = false;
    while t < m
        invariant
            m == edges@.len(),
            0 <= t <= m,
            forall|k: int|
                0 <= k < edges@.len() ==> edge_src(edges@, k) < placed@.len() && edge_dst(
                    edges@,
                    k,
                ) < placed@.len(),
            found == exists|k: int|
                0 <= k < t && edge_dst(edges@, k) == v && !placed@[edge_src(edges@, k)],
        decreases m - t,
    {
        let e = edges[t];
        proof {
            assert(edge_src(edges@, t as int) == e.0 as int);
            assert(edge_dst(edges@, t as int) == e.1 as int);
        }
        if e.1 == v && !placed[e.0] {
            proof {
                assert(edge_dst(edges@, t as int) == v && !placed@[edge_src(edges@, t as int)]);
            }
            found = true;
        }
        t = t + 1;
    }
    found
}

/// Find a node that is not placed yet and has no edge from an unplaced node
/// into it, if one exists.
fn find_ready(n: usize, edges: &Vec<(usize, usize)>, placed: &Vec<bool>) -> (r: Option<usize>)
    requires
        placed@.len() == n,
        forall|k: int|
            0 <= k < edges@.len() ==> edge_src(edges@, k) < n && edge_dst(edges@, k) < n,
    ensures
        r matches Some(v) ==> v < n && !placed@[v as int] && !blocked(v as int, edges@, placed@),
        r is None ==> forall|v: int|
            0 <= v < n && !placed@[v] ==> blocked(v, edges@, placed@),
{
    let mut v: usize = 0;
    while v < n
        invariant
            placed@.len() == n,
            0 <= v <= n,
            forall|k: int|
                0 <= k < edges@.len() ==> edge_src(edges@, k) < n && edge_dst(edges@, k) < n,
            forall|u: int| 0 <= u < v && !placed@[u] ==> blocked(u, edges@, placed@),
        decreases n - v,
    {
        if !placed[v] {
            if !has_unplaced_pred(v, edges, placed) {
                return Some(v);
            }
        }
        v = v + 1;
    }
    None
}

/// A mask of `n` entries, all unset.
fn empty_mask(n: usize) -> (v: Vec<bool>)
    ensures
        v@.len() == n,
        forall|j: int| 0 <= j < n ==> !v@[j],
        count_placed(v@) == 0,
{
    let mut v: Vec<bool> = Vec::new();
    let mut i: usize = 0;
    while i < n
        invariant
            0 <= i <= n,
            v@.len() == i as int,
            forall|j: int| 0 <= j < i ==> !v@[j],
            count_placed(v@) == 0,
        decreases n - i,
    {
        let ghost pre = v@;
        v.push(false);
        proof {
            assert(v@.drop_last() =~= pre);
        }
        i = i + 1;
    }
    v
}

/// A rank vector of `n` zeroes.
fn zero_ranks(n: usize) -> (v: Vec<usize>)
    ensures
        v@.len() == n,
{
    let mut v: Vec<usize> = Vec::new();
    let mut i: usize = 0;
    while i < n
        invariant
            0 <= i <= n,
            v@.len() == i as int,
        decreases n - i,
    {
        v.push(0);
        i = i + 1;
    }
    v
}

/// What a failed ordering attempt reports: a nonempty set of nodes, marked
/// in a mask over all `n` nodes, each of which is the target of an edge from
/// inside the set.  Following such edges backwards inside a finite set must
/// revisit a node, so the set contains a cycle and no valid order exists.
pub open spec fn cycle_evidence(stuck: Seq<bool>, edges: Seq<(usize, usize)>, n: int) -> bool {
    &&& stuck.len() == n
    &&& exists|v: int| 0 <= v < n && stuck[v]
    &&& forall|v: int|
        0 <= v < n && stuck[v] ==> exists|e: int|
            0 <= e < edges.len() && edge_dst(edges, e) == v && stuck[edge_src(edges, e)]
}

/// The complement of the placed mask, as evidence of a cycle: when every
/// unplaced node has an edge into it from an unplaced node, the unplaced
/// nodes form the reported stuck set.
fn cycle_mask(n: usize, edges: &Vec<(usize, usize)>, placed: &Vec<bool>) -> (stuck: Vec<bool>)
    requires
        placed@.len() == n,
        count_placed(placed@) < n,
        forall|e: int|
            0 <= e < edges@.len() ==> edge_src(edges@, e) < n && edge_dst(edges@, e) < n,
        forall|v: int| 0 <= v < n && !placed@[v] ==> blocked(v, edges@, placed@),
    ensures
        cycle_evidence(stuck@, edges@, n as int),
{
    let mut stuck: Vec<bool> = Vec::new();
    let mut j: usize = 0;
    while j < n
        invariant
            0 <= j <= n,
            placed@.len() == n,
            stuck@.len() == j as int,
            forall|t: int| 0 <= t < j ==> stuck@[t] == !placed@[t],
        decreases n - j,
    {
        let p = placed[j];
        stuck.push(!p);
        j = j + 1;
    }
    proof {
        lemma_stuck_evidence(edges@, placed@, stuck@);
    }
    stuck
}

/// Assign each node a rank so that every edge goes from a lower rank to a
/// higher one — a topological numbering — or report the cycle.
///
/// On success every edge is satisfied by the returned ranks, so the edge
/// list is acyclic and a host scheduler can realise it.  On failure the
/// returned mask marks a nonempty set of nodes each of which is the target
/// of an edge from inside the set; following those edges backwards inside a
/// finite set must revisit a node, so the marked set contains a cycle and no
/// valid order exists for these edges.
#[verifier::rlimit(100)]
pub fn topological_ranks(n_nodes: usize, edges: &Vec<(usize, usize)>) -> (r: Result<
    Vec<usize>,
    Vec<bool>,
>)
    requires
        forall|k: int|
            0 <= k < edges@.len() ==> edge_src(edges@, k) < n_nodes && edge_dst(edges@, k)
                < n_nodes,
    ensures
        r matches Ok(ranks) ==> ranks@.len() == n_nodes && forall|k: int|
            0 <= k < edges@.len() ==> ranks@[edge_src(edges@, k)] < ranks@[edge_dst(edges@, k)],
        r matches Err(stuck) ==> cycle_evidence(stuck@, edges@, n_nodes as int),
{
    let n = n_nodes;
    let mut placed: Vec<bool> = empty_mask(n);
    let mut ranks: Vec<usize> = zero_ranks(n);
    let mut k: usize = 0;
    while k < n
        invariant
            n == n_nodes,
            0 <= k <= n,
            placed@.len() == n,
            ranks@.len() == n,
            forall|e: int|
                0 <= e < edges@.len() ==> edge_src(edges@, e) < n && edge_dst(edges@, e) < n,
            count_placed(placed@) == k as int,
            forall|v: int| 0 <= v < n && placed@[v] ==> ranks@[v] < k,
            forall|e: int|
                0 <= e < edges@.len() && placed@[edge_dst(edges@, e)] ==> placed@[edge_src(
                    edges@,
                    e,
                )] && ranks@[edge_src(edges@, e)] < ranks@[edge_dst(edges@, e)],
        decreases n - k,
    {
        match find_ready(n, edges, &placed) {
            Some(v) => {
                let ghost old_placed = placed@;
                let ghost old_ranks = ranks@;
                ranks[v] = k;
                placed[v] = true;
                proof {
                    lemma_count_placed_update(old_placed, v as int);
                    lemma_place_node(edges@, old_placed, old_ranks, placed@, ranks@, v as int, k);
                }
            },
            None => {
                let stuck = cycle_mask(n, edges, &placed);
                return Err(stuck);
            },
        }
        k = k + 1;
    }
    proof {
        lemma_count_placed_all(placed@);
    }
    Ok(ranks)
}

/// Placing an unblocked node at the next rank keeps every edge into a
/// placed node satisfied.
proof fn lemma_place_node(
    edges: Seq<(usize, usize)>,
    old_placed: Seq<bool>,
    old_ranks: Seq<usize>,
    new_placed: Seq<bool>,
    new_ranks: Seq<usize>,
    v: int,
    k: usize,
)
    requires
        old_placed.len() == old_ranks.len(),
        0 <= v < old_placed.len(),
        !old_placed[v],
        !blocked(v, edges, old_placed),
        forall|e: int|
            0 <= e < edges.len() ==> edge_src(edges, e) < old_placed.len() && edge_dst(edges, e)
                < old_placed.len(),
        forall|u: int| 0 <= u < old_placed.len() && old_placed[u] ==> old_ranks[u] < k,
        forall|e: int|
            0 <= e < edges.len() && old_placed[edge_dst(edges, e)] ==> old_placed[edge_src(
                edges,
                e,
            )] && old_ranks[edge_src(edges, e)] < old_ranks[edge_dst(edges, e)],
        new_placed == old_placed.update(v, true),
        new_ranks == old_ranks.update(v, k),
    ensures
        forall|u: int| 0 <= u < new_placed.len() && new_placed[u] ==> new_ranks[u] < k + 1,
        forall|e: int|
            0 <= e < edges.len() && new_placed[edge_dst(edges, e)] ==> new_placed[edge_src(
                edges,
                e,
            )] && new_ranks[edge_src(edges, e)] < new_ranks[edge_dst(edges, e)],
{
    reveal(blocked);
    assert forall|e: int|
        0 <= e < edges.len() && new_placed[edge_dst(edges, e)] implies new_placed[edge_src(
        edges,
        e,
    )] && new_ranks[edge_src(edges, e)] < new_ranks[edge_dst(edges, e)] by {
        let src = edge_src(edges, e);
        let dst = edge_dst(edges, e);
        if dst == v {
            if !old_placed[src] {
                assert(0 <= e < edges.len() && edge_dst(edges, e) == v && !old_placed[edge_src(
                    edges,
                    e,
                )]);
                assert(blocked(v, edges, old_placed));
            }
            assert(old_placed[src]);
            assert(src != v);
        } else {
            assert(old_placed[dst]);
            assert(old_placed[src]);
            assert(src != v && dst != v);
        }
    }
}

/// When fewer nodes are placed than exist and every unplaced node is
/// blocked by an unplaced one, the complement mask is nonempty evidence of a
/// cycle: each marked node has an edge into it from a marked node.
proof fn lemma_stuck_evidence(edges: Seq<(usize, usize)>, placed: Seq<bool>, stuck: Seq<bool>)
    requires
        stuck.len() == placed.len(),
        count_placed(placed) < placed.len(),
        forall|t: int| 0 <= t < placed.len() ==> stuck[t] == !placed[t],
        forall|e: int|
            0 <= e < edges.len() ==> edge_src(edges, e) < placed.len() && edge_dst(edges, e)
                < placed.len(),
        forall|v: int| 0 <= v < placed.len() && !placed[v] ==> blocked(v, edges, placed),
    ensures
        exists|v: int| 0 <= v < stuck.len() && stuck[v],
        forall|v: int|
            0 <= v < stuck.len() && stuck[v] ==> exists|e: int|
                0 <= e < edges.len() && edge_dst(edges, e) == v && stuck[edge_src(edges, e)],
{
    reveal(blocked);
    lemma_count_placed_missing(placed);
    let w = choose|w: int| 0 <= w < placed.len() && !placed[w];
    assert(stuck[w]);
    assert forall|v: int|
        0 <= v < stuck.len() && stuck[v] implies exists|e: int|
        0 <= e < edges.len() && edge_dst(edges, e) == v && stuck[edge_src(edges, e)] by {
        assert(blocked(v, edges, placed));
        let e = choose|e: int|
            0 <= e < edges.len() && edge_dst(edges, e) == v && !placed[edge_src(edges, e)];
        assert(stuck[edge_src(edges, e)]);
    }
}

/// How many entries of the mask are set.
spec fn count_placed(s: Seq<bool>) -> int
    decreases s.len(),
{
    if s.len() == 0 {
        0
    } else {
        count_placed(s.drop_last()) + if s.last() {
            1int
        } else {
            0int
        }
    }
}

/// The count never exceeds the mask's length.
proof fn lemma_count_placed_le(s: Seq<bool>)
    ensures
        0 <= count_placed(s) <= s.len(),
    decreases s.len(),
{
    if s.len() > 0 {
        lemma_count_placed_le(s.drop_last());
    }
}

/// A mask whose count is below its length has an unset entry.
proof fn lemma_count_placed_missing(s: Seq<bool>)
    requires
        count_placed(s) < s.len(),
    ensures
        exists|v: int| 0 <= v < s.len() && !s[v],
    decreases s.len(),
{
    if !s.last() {
        assert(0 <= s.len() - 1 < s.len() && !s[s.len() - 1]);
    } else {
        lemma_count_placed_missing(s.drop_last());
        let v = choose|v: int| 0 <= v < s.drop_last().len() && !s.drop_last()[v];
        assert(0 <= v < s.len() && !s[v]);
    }
}

/// Setting an unset entry raises the count by one.
proof fn lemma_count_placed_update(s: Seq<bool>, v: int)
    requires
        0 <= v < s.len(),
        !s[v],
    ensures
        count_placed(s.update(v, true)) == count_placed(s) + 1,
    decreases s.len(),
{
    let u = s.update(v, true);
    if v == s.len() - 1 {
        assert(u.drop_last() =~= s.drop_last());
    } else {
        assert(u.drop_last() =~= s.drop_last().update(v, true));
        lemma_count_placed_update(s.drop_last(), v);
    }
}

/// A mask whose count is its length has every entry set.
proof fn lemma_count_placed_all(s: Seq<bool>)
    requires
        count_placed(s) == s.len(),
    ensures
        forall|v: int| 0 <= v < s.len() ==> s[v],
    decreases s.len(),
{
    if s.len() > 0 {
        lemma_count_placed_le(s.drop_last());
        assert(s.last());
        lemma_count_placed_all(s.drop_last());
        assert forall|v: int| 0 <= v < s.len() implies s[v] by {
            if v < s.len() - 1 {
                assert(s.drop_last()[v]);
            }
        }
    }
}

/// A ranking witnessing that every plan this plugin builds is acyclic: the
/// 2D-to-3D pass, then the physics backend's read-in, then transform
/// propagation, then the physics writeback, then the 3D-to-2D pass.
pub open spec fn default_ranks(p: SyncPoint) -> int {
    match p {
        SyncPoint::SyncTransform2dTo3d => 0,
        SyncPoint::PhysicsSyncBackend => 1,
        SyncPoint::TransformPropagate => 2,
        SyncPoint::PhysicsWriteback => 3,
        SyncPoint::SyncTransform3dTo2d => 4,
    }
}

/// Every plan this plugin can build admits a valid order: [`default_ranks`]
/// satisfies each of its edges, so the edges are acyclic and a host
/// scheduler can realise them.
pub proof fn lemma_planned_edges_acyclic(with_physics: bool)
    ensures
        forall|k: int|
            0 <= k < planned_edges(with_physics).len() ==> default_ranks(
                planned_edges(with_physics)[k].before,
            ) < default_ranks(planned_edges(with_physics)[k].after),
{
    assert forall|k: int| 0 <= k < planned_edges(with_physics).len() implies default_ranks(
        planned_edges(with_physics)[k].before,
    ) < default_ranks(planned_edges(with_physics)[k].after) by {
        if k < 2 {
            assert(planned_edges(with_physics)[k] == base_edges()[k]);
        } else {
            assert(planned_edges(with_physics)[k] == physics_edges()[k - 2]);
        }
    }
}

} // verus!
