use room::participant::{
    LOCATION_EXTERNAL, LOCATION_SHARED_PROJECT, LOCATION_UNSHARED_PROJECT,
};
use room::{
    Call, ParticipantLocation, ParticipantRecord, Room, RoomError, RoomSnapshot, RoomStatus,
    SignalingRequest,
};

fn record(user_id: u64, peer_id: u32, tag: u32, data: Option<u64>) -> ParticipantRecord {
    ParticipantRecord { user_id, peer_id, location_tag: tag, location_data: data }
}

fn snapshot(room_id: u64, participants: Vec<ParticipantRecord>, pending: Vec<u64>) -> RoomSnapshot {
    RoomSnapshot { room_id, participants, pending_user_ids: pending }
}

fn online_room(id: u64, local_user_id: u64) -> Room {
    Room::create(Ok(id), Some(local_user_id)).unwrap()
}

#[test]
fn snapshot_skips_local_user() {
    let mut room = online_room(1, 5);
    let snap = snapshot(
        1,
        vec![record(5, 1, LOCATION_EXTERNAL, None), record(9, 2, LOCATION_EXTERNAL, None)],
        vec![11, 12],
    );
    assert_eq!(room.apply_room_update(snap), Ok(()));
    let registry = room.remote_participants();
    assert_eq!(registry.len(), 1);
    assert!(!registry.contains_key(&1));
    let p = &registry[&2];
    assert_eq!(p.user_id, 9);
    assert_eq!(p.location, ParticipantLocation::External);
    assert!(p.projects.is_empty());
    assert_eq!(room.pending_user_ids(), &[11, 12]);
}

#[test]
fn create_starts_online_and_empty() {
    let room = online_room(42, 5);
    assert_eq!(room.status(), RoomStatus::Online);
    assert_eq!(room.id(), 42);
    assert!(room.remote_participants().is_empty());
    assert!(room.pending_user_ids().is_empty());
}

#[test]
fn create_failure_is_signaling_failure() {
    let r = Room::create(Err("unreachable server".to_string()), Some(5));
    assert!(matches!(r, Err(RoomError::SignalingFailure)));
}

#[test]
fn leave_then_call_fails_offline() {
    let mut room = online_room(3, 5);
    let snap = snapshot(3, vec![record(9, 2, LOCATION_EXTERNAL, None)], vec![]);
    assert_eq!(room.apply_room_update(snap), Ok(()));
    assert_eq!(room.remote_participants().len(), 1);
    assert_eq!(room.leave(), Ok(SignalingRequest::LeaveRoom { room_id: 3 }));
    assert_eq!(room.status(), RoomStatus::Offline);
    assert!(room.remote_participants().is_empty());
    assert_eq!(room.call(7), Err(RoomError::RoomOffline));
}

#[test]
fn leave_twice_reports_offline() {
    let mut room = online_room(3, 5);
    assert!(room.leave().is_ok());
    assert_eq!(room.leave(), Err(RoomError::RoomOffline));
    assert_eq!(room.status(), RoomStatus::Offline);
    assert!(room.remote_participants().is_empty());
}

#[test]
fn offline_room_ignores_snapshots() {
    let mut room = online_room(3, 5);
    assert!(room.leave().is_ok());
    let snap = snapshot(3, vec![record(9, 2, LOCATION_EXTERNAL, None)], vec![4]);
    assert_eq!(room.apply_room_update(snap), Err(RoomError::RoomOffline));
    assert!(room.remote_participants().is_empty());
    assert!(room.pending_user_ids().is_empty());
    assert_eq!(room.status(), RoomStatus::Offline);
}

#[test]
fn call_builds_invite_request() {
    let mut room = online_room(8, 5);
    assert_eq!(room.call(7), Ok(SignalingRequest::Call { room_id: 8, to_user_id: 7 }));
    assert!(room.pending_user_ids().is_empty());
}

#[test]
fn join_without_snapshot_is_invalid_room_state() {
    let call = Call { room_id: 99 };
    let r = Room::join(&call, Ok(None), Some(5));
    assert!(matches!(r, Err(RoomError::InvalidRoomState)));
}

#[test]
fn join_request_failure_is_signaling_failure() {
    let call = Call { room_id: 99 };
    let r = Room::join(&call, Err("timeout".to_string()), Some(5));
    assert!(matches!(r, Err(RoomError::SignalingFailure)));
}

#[test]
fn join_applies_snapshot() {
    let call = Call { room_id: 99 };
    let snap = snapshot(
        99,
        vec![
            record(5, 1, LOCATION_EXTERNAL, None),
            record(6, 3, LOCATION_SHARED_PROJECT, Some(70)),
            record(7, 4, LOCATION_UNSHARED_PROJECT, None),
        ],
        vec![8],
    );
    let room = Room::join(&call, Ok(Some(snap)), Some(5)).unwrap();
    assert_eq!(room.id(), 99);
    assert_eq!(room.status(), RoomStatus::Online);
    let registry = room.remote_participants();
    assert_eq!(registry.len(), 2);
    assert_eq!(registry[&3].location, ParticipantLocation::SharedProject { project_id: 70 });
    assert_eq!(registry[&4].location, ParticipantLocation::UnsharedProject);
    assert_eq!(room.pending_user_ids(), &[8]);
}

#[test]
fn join_with_bad_location_is_invalid_location() {
    let call = Call { room_id: 99 };
    let snap = snapshot(99, vec![record(6, 3, 17, None)], vec![]);
    let r = Room::join(&call, Ok(Some(snap)), Some(5));
    assert!(matches!(r, Err(RoomError::InvalidLocation)));
}

#[test]
fn bad_location_leaves_registry_unchanged() {
    let mut room = online_room(1, 5);
    let first = snapshot(1, vec![record(9, 2, LOCATION_EXTERNAL, None)], vec![11]);
    assert_eq!(room.apply_room_update(first), Ok(()));
    let second = snapshot(
        1,
        vec![record(10, 6, LOCATION_EXTERNAL, None), record(12, 7, 99, None)],
        vec![13],
    );
    assert_eq!(room.apply_room_update(second), Err(RoomError::InvalidLocation));
    let registry = room.remote_participants();
    assert_eq!(registry.len(), 1);
    assert_eq!(registry[&2].user_id, 9);
    assert!(!registry.contains_key(&6));
    assert_eq!(room.pending_user_ids(), &[11]);
}

#[test]
fn shared_project_without_id_is_invalid() {
    let mut room = online_room(1, 5);
    let snap = snapshot(1, vec![record(9, 2, LOCATION_SHARED_PROJECT, None)], vec![]);
    assert_eq!(room.apply_room_update(snap), Err(RoomError::InvalidLocation));
    assert!(room.remote_participants().is_empty());
}

#[test]
fn local_record_with_bad_location_is_ignored() {
    let mut room = online_room(1, 5);
    let snap = snapshot(1, vec![record(5, 1, 42, None), record(9, 2, LOCATION_EXTERNAL, None)], vec![]);
    assert_eq!(room.apply_room_update(snap), Ok(()));
    assert_eq!(room.remote_participants().len(), 1);
}

#[test]
fn snapshot_replaces_everything() {
    let mut room = online_room(1, 5);
    let first = snapshot(
        1,
        vec![record(9, 2, LOCATION_EXTERNAL, None), record(10, 3, LOCATION_EXTERNAL, None)],
        vec![11, 12],
    );
    assert_eq!(room.apply_room_update(first), Ok(()));
    let second = snapshot(1, vec![record(10, 4, LOCATION_UNSHARED_PROJECT, None)], vec![]);
    assert_eq!(room.apply_room_update(second), Ok(()));
    let registry = room.remote_participants();
    assert_eq!(registry.len(), 1);
    assert_eq!(registry[&4].user_id, 10);
    assert!(room.pending_user_ids().is_empty());
}

#[test]
fn later_record_for_same_peer_wins() {
    let mut room = online_room(1, 5);
    let snap = snapshot(
        1,
        vec![record(9, 2, LOCATION_EXTERNAL, None), record(10, 2, LOCATION_SHARED_PROJECT, Some(3))],
        vec![],
    );
    assert_eq!(room.apply_room_update(snap), Ok(()));
    let registry = room.remote_participants();
    assert_eq!(registry.len(), 1);
    assert_eq!(registry[&2].user_id, 10);
    assert_eq!(registry[&2].location, ParticipantLocation::SharedProject { project_id: 3 });
}

#[test]
fn unknown_local_user_keeps_every_record() {
    let mut room = Room::create(Ok(1), None).unwrap();
    let snap = snapshot(1, vec![record(5, 1, LOCATION_EXTERNAL, None)], vec![]);
    assert_eq!(room.apply_room_update(snap), Ok(()));
    assert_eq!(room.remote_participants().len(), 1);
}

#[test]
fn pushed_update_without_snapshot_is_invalid_room_state() {
    let mut room = online_room(1, 5);
    assert_eq!(room.handle_room_updated(None), Err(RoomError::InvalidRoomState));
    let snap = snapshot(1, vec![record(9, 2, LOCATION_EXTERNAL, None)], vec![3]);
    assert_eq!(room.handle_room_updated(Some(snap)), Ok(()));
    assert_eq!(room.pending_user_ids(), &[3]);
}

#[test]
fn gated_operations_follow_status() {
    let mut room = online_room(1, 5);
    assert_eq!(room.publish_project(4), Ok(()));
    assert_eq!(room.unpublish_project(4), Ok(()));
    assert_eq!(room.set_active_project(Some(4)), Ok(()));
    assert_eq!(room.set_active_project(None), Ok(()));
    assert_eq!(room.mute(), Ok(()));
    assert_eq!(room.unmute(), Ok(()));
    assert!(room.leave().is_ok());
    assert_eq!(room.publish_project(4), Err(RoomError::RoomOffline));
    assert_eq!(room.unpublish_project(4), Err(RoomError::RoomOffline));
    assert_eq!(room.set_active_project(Some(4)), Err(RoomError::RoomOffline));
    assert_eq!(room.mute(), Err(RoomError::RoomOffline));
    assert_eq!(room.unmute(), Err(RoomError::RoomOffline));
}

#[test]
fn status_reports_offline() {
    assert!(RoomStatus::Offline.is_offline());
    assert!(!RoomStatus::Online.is_offline());
}

#[test]
fn location_decoding() {
    assert_eq!(
        ParticipantLocation::from_record(LOCATION_EXTERNAL, None),
        Some(ParticipantLocation::External)
    );
    assert_eq!(
        ParticipantLocation::from_record(LOCATION_SHARED_PROJECT, Some(8)),
        Some(ParticipantLocation::SharedProject { project_id: 8 })
    );
    assert_eq!(
        ParticipantLocation::from_record(LOCATION_UNSHARED_PROJECT, Some(8)),
        Some(ParticipantLocation::UnsharedProject)
    );
    assert_eq!(ParticipantLocation::from_record(3, None), None);
}
