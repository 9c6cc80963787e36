use match_strategies::keeper_voice::{KeeperCensus, KeeperVoice, SideRow, ZoneRow};
use match_strategies::model::PlayerSide;

fn row(player_id: u32, team_id: u32, in_reach: bool, covered: bool, depth_key: u64) -> ZoneRow {
    ZoneRow { player_id, team_id, is_goalkeeper: false, in_reach, covered, depth_key }
}

#[test]
fn keeper_names_the_free_man_nearest_goal() {
    let rows = vec![
        row(2, 1, true, false, 10),   // one of ours: never counted
        row(20, 2, true, true, 5),    // covered
        row(21, 2, true, false, 40),  // free
        row(22, 2, true, false, 30),  // free, nearer
        row(23, 2, false, false, 1),  // out of reach
        row(24, 2, true, false, 30),  // free, as near: the first stays named
    ];
    assert_eq!(
        KeeperVoice::free_man(&rows, 1),
        KeeperCensus { man: Some(22), free: 3, in_zone: 4 }
    );
}

#[test]
fn nobody_free_means_no_call() {
    let mut keeper = row(30, 2, true, false, 0);
    keeper.is_goalkeeper = true;
    let rows = vec![row(20, 2, true, true, 5), keeper];
    assert_eq!(
        KeeperVoice::free_man(&rows, 1),
        KeeperCensus { man: None, free: 0, in_zone: 1 }
    );
    assert_eq!(KeeperVoice::free_man(&vec![], 1), KeeperCensus { man: None, free: 0, in_zone: 0 });
}

#[test]
fn own_goal_is_read_off_the_first_player_of_the_team() {
    let players = vec![
        SideRow { team_id: 2, side: Some(PlayerSide::Right) },
        SideRow { team_id: 1, side: None },
        SideRow { team_id: 1, side: Some(PlayerSide::Left) },
    ];
    assert_eq!(KeeperVoice::own_goal_side(&players, 2), Some(PlayerSide::Right));
    assert_eq!(KeeperVoice::own_goal_side(&players, 1), None);
    assert_eq!(KeeperVoice::own_goal_side(&players, 3), None);
}
