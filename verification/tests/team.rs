use nccl4rust::{rank_to_lsa, rank_to_world, Team};

#[test]
fn team_reports_the_queried_values() {
    let team = Team::new(8, 3, 2);
    assert_eq!(team.size(), 8);
    assert_eq!(team.rank(), 3);
    assert_eq!(team.stride(), 2);
}

#[test]
fn rank_to_world_hands_the_team_and_rank_to_the_device_call() {
    let team = Team::new(4, 1, 2);
    let world = rank_to_world(team, 3, |n_ranks, rank, stride, peer| {
        assert_eq!((n_ranks, rank, stride, peer), (4, 1, 2, 3));
        peer * stride + 100
    });
    assert_eq!(world, Some(106));
}

#[test]
fn rank_to_world_rejects_ranks_outside_the_team() {
    let team = Team::new(4, 1, 2);
    assert_eq!(rank_to_world(team, -1, |_, _, _, _| panic!("must not translate")), None);
    assert_eq!(rank_to_world(team, 4, |_, _, _, _| panic!("must not translate")), None);
    assert_eq!(rank_to_world(team, i32::MAX, |_, _, _, _| panic!("must not translate")), None);
    assert_eq!(rank_to_world(team, 0, |_, _, _, peer| peer), Some(0));
}

#[test]
fn rank_to_lsa_hands_the_team_and_rank_to_the_device_call() {
    let team = Team::new(2, 0, 4);
    let lsa = rank_to_lsa(team, 1, |n_ranks, rank, stride, peer| {
        assert_eq!((n_ranks, rank, stride, peer), (2, 0, 4, 1));
        7
    });
    assert_eq!(lsa, Some(7));
}

#[test]
fn rank_to_lsa_rejects_ranks_outside_the_team() {
    let team = Team::new(2, 0, 4);
    assert_eq!(rank_to_lsa(team, 2, |_, _, _, _| panic!("must not translate")), None);
    assert_eq!(rank_to_lsa(team, -3, |_, _, _, _| panic!("must not translate")), None);
    let empty = Team::new(0, 0, 1);
    assert_eq!(rank_to_lsa(empty, 0, |_, _, _, _| panic!("must not translate")), None);
}
