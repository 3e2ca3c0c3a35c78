use vstd::prelude::*;
use crate::components::{PlayerId, Position};

verus! {

/// The replication group all predicted player entities share, so that their
/// updates travel together and stay consistent within a tick.
pub const REPLICATION_GROUP: u64 = 1;

/// A set of clients that a piece of replicated state is sent to.
#[derive(Clone, Debug)]
pub enum NetworkTarget {
    /// No client.
    Nobody,
    /// Every client except the listed ones.
    AllExcept(Vec<u64>),
    /// Every client.
    All,
    /// Only the listed clients.
    Only(Vec<u64>),
    /// A single client.
    Single(u64),
}

impl NetworkTarget {
    /// Whether `client` belongs to the target.
    pub open spec fn includes(self, client: u64) -> bool {
        match self {
            NetworkTarget::Nobody => false,
            NetworkTarget::AllExcept(excluded) => !excluded@.contains(client),
            NetworkTarget::All => true,
            NetworkTarget::Only(clients) => clients@.contains(client),
            NetworkTarget::Single(c) => c == client,
        }
    }

    /// Whether `client` belongs to the target.
    pub fn should_send_to(&self, client: u64) -> (b: bool)
        ensures
            b == self.includes(client),
    {
        match self {
            NetworkTarget::Nobody => false,
            NetworkTarget::AllExcept(excluded) => !vec_contains(excluded, client),
            NetworkTarget::All => true,
            NetworkTarget::Only(clients) => vec_contains(clients, client),
            NetworkTarget::Single(c) => *c == client,
        }
    }
}

/// Whether `v` holds `x`.
fn vec_contains(v: &Vec<u64>, x: u64) -> (b: bool)
    ensures
        b == v@.contains(x),
{
    let mut i: usize = 0;
    while i < v.len()
        invariant
            i <= v.len(),
            forall|j: int| 0 <= j < i ==> v@[j] != x,
        decreases v.len() - i,
    {
        if v[i] == x {
            return true;
        }
        i = i + 1;
    }
    false
}

/// How a newly spawned player entity is replicated.
#[derive(Clone, Debug)]
pub struct ReplicationPlan {
    /// The clients that receive the entity.
    pub replication_target: NetworkTarget,
    /// The clients that interpolate the entity.
    pub interpolation_target: NetworkTarget,
    /// The clients that receive the player's input state.
    pub action_state_target: NetworkTarget,
    /// The replication group of the entity.
    pub replication_group: u64,
}

/// The replication of the player entity that `client_id` spawned: every client
/// receives it; every client but its owner interpolates it and receives its
/// inputs (the owner predicts it from its own inputs).
pub fn replicate_players(client_id: u64) -> (plan: ReplicationPlan)
    ensures
        plan.replication_group == REPLICATION_GROUP,
        plan.replication_target == NetworkTarget::All,
        (plan.interpolation_target matches NetworkTarget::AllExcept(v) && v@ == seq![client_id]),
        (plan.action_state_target matches NetworkTarget::AllExcept(v) && v@ == seq![client_id]),
        forall|c: u64| #[trigger] plan.replication_target.includes(c),
        forall|c: u64|
            #[trigger] plan.interpolation_target.includes(c) <==> c != client_id,
        forall|c: u64|
            #[trigger] plan.action_state_target.includes(c) <==> c != client_id,
{
    let mut interpolated: Vec<u64> = Vec::new();
    interpolated.push(client_id);
    let mut inputs: Vec<u64> = Vec::new();
    inputs.push(client_id);
    let plan = ReplicationPlan {
        replication_target: NetworkTarget::All,
        interpolation_target: NetworkTarget::AllExcept(interpolated),
        action_state_target: NetworkTarget::AllExcept(inputs),
        replication_group: REPLICATION_GROUP,
    };
    assert forall|c: u64| plan.interpolation_target.includes(c) <==> c != client_id by {
        if c == client_id {
            assert(interpolated@[0] == c);
        }
    }
    assert forall|c: u64| plan.action_state_target.includes(c) <==> c != client_id by {
        if c == client_id {
            assert(inputs@[0] == c);
        }
    }
    plan
}

/// The replicated state of a player: who owns it and where it stands.
#[derive(Clone, Copy, Debug, PartialEq, Eq, Structural)]
pub struct Player {
    pub id: PlayerId,
    pub position: Position,
    pub replication_group: u64,
}

impl Player {
    /// A player owned by client `id`, standing at `position`, in the shared
    /// replication group.
    pub fn new(id: u64, position: Position) -> (p: Player)
        ensures
            p.id == PlayerId(id),
            p.position == position,
            p.replication_group == REPLICATION_GROUP,
    {
        Player { id: PlayerId(id), position, replication_group: REPLICATION_GROUP }
    }
}

} // verus!
