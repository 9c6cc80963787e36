use match_strategies::model::{DefenderState, PlayerSide};

#[test]
fn compact_ids_follow_declared_order() {
    let all = DefenderState::all();
    assert_eq!(all.len(), 22);
    for (i, s) in all.iter().enumerate() {
        assert_eq!(s.compact_id() as usize, i);
    }
    assert_eq!(DefenderState::Standing.compact_id(), 0);
    assert_eq!(DefenderState::AttackingCorner.compact_id(), 19);
}

#[test]
fn state_names_read_as_displayed() {
    assert_eq!(DefenderState::TrackingBack.name(), "Tracking Back");
    assert_eq!(DefenderState::HoldingLine.name(), "Holding Line");
    assert_eq!(DefenderState::TakeBall.name(), "Take Ball");
    assert_eq!(DefenderState::Standing.name(), "Standing");
}

#[test]
fn sides_are_opposite() {
    assert_eq!(PlayerSide::Left.opposite(), PlayerSide::Right);
    assert_eq!(PlayerSide::Right.opposite(), PlayerSide::Left);
}
