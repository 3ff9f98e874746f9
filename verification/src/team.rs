//! Team descriptors and the range check that guards every rank translation.
//!
//! A team is the triple that NCCL's device API calls `ncclTeam_t`: the number
//! of ranks in the team, this rank's position in it, and the world-rank stride
//! between consecutive team members.  The device-side queries that produce a
//! team, and the device functions that translate a team rank, live outside
//! this library; what the library owns is the descriptor and the decision of
//! when a translation may be asked for at all.

use vstd::prelude::*;

verus! {

/// Value-type NCCL team descriptor.
#[derive(Clone, Copy, Debug, PartialEq, Eq, Structural)]
pub struct Team {
    /// Number of ranks in the team.
    pub n_ranks: i32,
    /// This rank's index inside the team.
    pub rank: i32,
    /// World-rank distance between consecutive team members.
    pub stride: i32,
}

impl Team {
    /// A team is made of exactly the three values a device team query reports.
    pub fn new(n_ranks: i32, rank: i32, stride: i32) -> (team: Team)
        ensures
            team.n_ranks == n_ranks,
            team.rank == rank,
            team.stride == stride,
    {
        Team { n_ranks, rank, stride }
    }

    /// Number of ranks in the team.
    pub fn size(self) -> (n: i32)
        ensures
            n == self.n_ranks,
    {
        self.n_ranks
    }

    /// This rank's index in the team.
    pub fn rank(self) -> (r: i32)
        ensures
            r == self.rank,
    {
        self.rank
    }

    /// World-rank stride between team members.
    pub fn stride(self) -> (s: i32)
        ensures
            s == self.stride,
    {
        self.stride
    }

    /// `rank` names a member of the team: it lies in `0..size`.
    pub open spec fn has_member(self, rank: int) -> bool {
        0 <= rank < self.n_ranks
    }
}

/// A rank is a member of a team exactly when it lies in `0..n_ranks`: the
/// team's own rank counts like any other, and a team of one or more ranks
/// always has member 0.
pub proof fn law_team_membership(team: Team, rank: int)
    ensures
        team.has_member(rank) <==> (0 <= rank && rank < team.n_ranks),
        team.n_ranks >= 1 ==> team.has_member(0),
        (0 <= team.rank && team.rank < team.n_ranks) ==> team.has_member(team.rank as int),
{
}

/// Translate a rank in `team` to its world rank.
///
/// Returns `None` when `rank` is outside the team; only then is the device
/// translation `to_world` left uncalled.  Otherwise `to_world` receives the
/// team's size, rank and stride followed by `rank`, and its answer is returned.
pub fn rank_to_world<F: FnOnce(i32, i32, i32, i32) -> i32>(
    team: Team,
    rank: i32,
    to_world: F,
) -> (world_rank: Option<i32>)
    requires
        team.has_member(rank as int) ==> to_world.requires(
            (team.n_ranks, team.rank, team.stride, rank),
        ),
    ensures
        world_rank is None <==> !team.has_member(rank as int),
        world_rank is None <==> (rank < 0 || rank >= team.n_ranks),
        (0 <= rank && rank < team.n_ranks) ==> world_rank is Some,
        world_rank matches Some(w) ==> to_world.ensures(
            (team.n_ranks, team.rank, team.stride, rank),
            w,
        ),
{
    if rank < 0 || rank >= team.size() {
        None
    } else {
        Some(to_world(team.size(), team.rank(), team.stride(), rank))
    }
}

/// Translate a rank in `team` to its LSA rank.
///
/// Returns `None` when `rank` is outside the team; otherwise `to_lsa` receives
/// the team's size, rank and stride followed by `rank`, and its answer is
/// returned.
pub fn rank_to_lsa<F: FnOnce(i32, i32, i32, i32) -> i32>(
    team: Team,
    rank: i32,
    to_lsa: F,
) -> (lsa_rank: Option<i32>)
    requires
        team.has_member(rank as int) ==> to_lsa.requires(
            (team.n_ranks, team.rank, team.stride, rank),
        ),
    ensures
        lsa_rank is None <==> !team.has_member(rank as int),
        lsa_rank is None <==> (rank < 0 || rank >= team.n_ranks),
        (0 <= rank && rank < team.n_ranks) ==> lsa_rank is Some,
        lsa_rank matches Some(l) ==> to_lsa.ensures(
            (team.n_ranks, team.rank, team.stride, rank),
            l,
        ),
{
    if rank < 0 || rank >= team.size() {
        None
    } else {
        Some(to_lsa(team.size(), team.rank(), team.stride(), rank))
    }
}

} // verus!
