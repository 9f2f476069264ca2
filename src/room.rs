use std::collections::HashMap;
use vstd::prelude::*;

use crate::participant::{
    location_of, LocalParticipant, ParticipantLocation, ParticipantRecord, RemoteParticipant,
    RemoteParticipantView, RoomSnapshot,
};

verus! {

broadcast use vstd::std_specs::hash::group_hash_axioms;

/// Notifications a room emits to its observers besides plain state changes.
#[derive(Clone, Copy, Debug, PartialEq, Eq, Structural)]
pub enum Event {
    PeerChangedActiveProject,
}

/// Whether the session is live. `Offline` is terminal.
#[derive(Clone, Copy, Debug, PartialEq, Eq, Structural)]
pub enum RoomStatus {
    Online,
    Offline,
}

impl RoomStatus {
    pub fn is_offline(&self) -> (r: bool)
        ensures
            r == (*self == RoomStatus::Offline),
    {
        matches!(self, RoomStatus::Offline)
    }
}

/// Why a room operation did not take place.
#[derive(Clone, Copy, Debug, PartialEq, Eq, Structural)]
pub enum RoomError {
    /// The session has already gone offline.
    RoomOffline,
    /// The transport failed to deliver a request or its response.
    SignalingFailure,
    /// A response or push notification lacked the room snapshot.
    InvalidRoomState,
    /// A participant record carried a location that cannot be decoded.
    InvalidLocation,
}

/// A message for the server, built by the room and sent by its owner.
#[derive(Clone, Copy, Debug, PartialEq, Eq, Structural)]
pub enum SignalingRequest {
    CreateRoom,
    JoinRoom { room_id: u64 },
    LeaveRoom { room_id: u64 },
    Call { room_id: u64, to_user_id: u64 },
}

/// An invitation to an existing room.
#[derive(Clone, Copy, Debug, PartialEq, Eq, Structural)]
pub struct Call {
    pub room_id: u64,
}

/// Mathematical model of a [`Room`].
pub struct RoomView {
    pub id: u64,
    pub status: RoomStatus,
    pub local_user_id: Option<u64>,
    pub local_projects: Seq<u64>,
    pub registry: Map<u32, RemoteParticipantView>,
    pub pending_user_ids: Seq<u64>,
}

/// A live collaborative session: who is in it and who has been invited.
pub struct Room {
    id: u64,
    status: RoomStatus,
    local_user_id: Option<u64>,
    local_participant: LocalParticipant,
    remote_participants: HashMap<u32, RemoteParticipant>,
    pending_user_ids: Vec<u64>,
}

impl View for Room {
    type V = RoomView;

    closed spec fn view(&self) -> RoomView {
        RoomView {
            id: self.id,
            status: self.status,
            local_user_id: self.local_user_id,
            local_projects: self.local_participant.projects@,
            registry: self.remote_participants@.map_values(|p: RemoteParticipant| p@),
            pending_user_ids: self.pending_user_ids@,
        }
    }
}

/// A record names the local user.
pub open spec fn is_local(rec: ParticipantRecord, local_user_id: Option<u64>) -> bool {
    local_user_id == Some(rec.user_id)
}

/// Every record other than the local user's has a recognized location.
pub open spec fn snapshot_valid(records: Seq<ParticipantRecord>, local_user_id: Option<u64>) -> bool {
    forall|i: int|
        0 <= i < records.len() && !is_local(#[trigger] records[i], local_user_id) ==> location_of(
            records[i].location_tag,
            records[i].location_data,
        ) is Some
}

/// The registry that a valid list of records yields: every non-local record, keyed by
/// its peer id, a later record for the same peer replacing an earlier one.
pub open spec fn registry_of(records: Seq<ParticipantRecord>, local_user_id: Option<u64>) -> Map<
    u32,
    RemoteParticipantView,
>
    decreases records.len(),
{
    if records.len() == 0 {
        Map::empty()
    } else {
        let prev = registry_of(records.drop_last(), local_user_id);
        let rec = records.last();
        if is_local(rec, local_user_id) {
            prev
        } else {
            prev.insert(
                rec.peer_id,
                RemoteParticipantView {
                    user_id: rec.user_id,
                    projects: Seq::empty(),
                    location: location_of(rec.location_tag, rec.location_data)->Some_0,
                },
            )
        }
    }
}

/// A freshly constructed, online session with nobody in it.
pub open spec fn fresh_room(id: u64, local_user_id: Option<u64>) -> RoomView {
    RoomView {
        id,
        status: RoomStatus::Online,
        local_user_id,
        local_projects: Seq::empty(),
        registry: Map::empty(),
        pending_user_ids: Seq::empty(),
    }
}

/// The session's invariant.
pub open spec fn room_inv(s: RoomView) -> bool {
    &&& forall|p: u32| #[trigger]
        s.registry.contains_key(p) ==> s.local_user_id != Some(s.registry[p].user_id)
    &&& s.status == RoomStatus::Offline ==> s.registry == Map::<u32, RemoteParticipantView>::empty()
}

/// The state after reconciling `s` against `snap`.
pub open spec fn apply_next(s: RoomView, snap: RoomSnapshot) -> RoomView {
    if s.status == RoomStatus::Offline || !snapshot_valid(snap.participants@, s.local_user_id) {
        s
    } else {
        RoomView {
            registry: registry_of(snap.participants@, s.local_user_id),
            pending_user_ids: snap.pending_user_ids@,
            ..s
        }
    }
}

/// What reconciling `s` against `snap` reports.
pub open spec fn apply_outcome(s: RoomView, snap: RoomSnapshot) -> Result<(), RoomError> {
    if s.status == RoomStatus::Offline {
        Err(RoomError::RoomOffline)
    } else if !snapshot_valid(snap.participants@, s.local_user_id) {
        Err(RoomError::InvalidLocation)
    } else {
        Ok(())
    }
}

/// The state after leaving `s`.
pub open spec fn leave_next(s: RoomView) -> RoomView {
    if s.status == RoomStatus::Offline {
        s
    } else {
        RoomView { status: RoomStatus::Offline, registry: Map::empty(), ..s }
    }
}

/// What leaving `s` reports: the notification to send, or why nothing happened.
pub open spec fn leave_outcome(s: RoomView) -> Result<SignalingRequest, RoomError> {
    if s.status == RoomStatus::Offline {
        Err(RoomError::RoomOffline)
    } else {
        Ok(SignalingRequest::LeaveRoom { room_id: s.id })
    }
}

/// The outcome of an operation that is only gated on the session being online.
pub open spec fn online_gate(s: RoomView) -> Result<(), RoomError> {
    if s.status == RoomStatus::Offline {
        Err(RoomError::RoomOffline)
    } else {
        Ok(())
    }
}

/// Every peer in the registry built from `records` comes from a non-local record.
pub proof fn lemma_registry_of_excludes_local(
    records: Seq<ParticipantRecord>,
    local_user_id: Option<u64>,
)
    ensures
        forall|p: u32| #[trigger]
            registry_of(records, local_user_id).contains_key(p) ==> local_user_id != Some(
                registry_of(records, local_user_id)[p].user_id,
            ),
    decreases records.len(),
{
    if records.len() > 0 {
        lemma_registry_of_excludes_local(records.drop_last(), local_user_id);
    }
}

/// Whatever snapshot is applied to a well-formed session, no registry entry
/// belongs to the local user.
pub proof fn lemma_snapshot_excludes_local_user(s: RoomView, snap: RoomSnapshot)
    requires
        room_inv(s),
    ensures
        room_inv(apply_next(s, snap)),
        forall|p: u32| #[trigger]
            apply_next(s, snap).registry.contains_key(p) ==> s.local_user_id != Some(
                apply_next(s, snap).registry[p].user_id,
            ),
{
    lemma_registry_of_excludes_local(snap.participants@, s.local_user_id);
}

/// Leaving twice: the second attempt fails with `RoomOffline`, and after the first
/// the session is offline with an empty registry, which the second leaves as it is.
pub proof fn lemma_leave_twice(s: RoomView)
    requires
        room_inv(s),
    ensures
        leave_outcome(leave_next(s)) == Err::<SignalingRequest, RoomError>(RoomError::RoomOffline),
        leave_next(s).status == RoomStatus::Offline,
        leave_next(s).registry == Map::<u32, RemoteParticipantView>::empty(),
        leave_next(leave_next(s)) == leave_next(s),
{
}

/// An offline session stays offline and empty: neither a snapshot nor another
/// leave changes it, and every gated operation fails with `RoomOffline`.
pub proof fn lemma_offline_is_terminal(s: RoomView, snap: RoomSnapshot)
    requires
        room_inv(s),
        s.status == RoomStatus::Offline,
    ensures
        apply_next(s, snap) == s,
        apply_outcome(s, snap) == Err::<(), RoomError>(RoomError::RoomOffline),
        leave_next(s) == s,
        online_gate(s) == Err::<(), RoomError>(RoomError::RoomOffline),
        s.registry == Map::<u32, RemoteParticipantView>::empty(),
{
}

/// Reconciliation is all or nothing: a snapshot with an undecodable location for
/// some non-local participant leaves the session exactly as it was.
pub proof fn lemma_invalid_snapshot_keeps_state(s: RoomView, snap: RoomSnapshot, i: int)
    requires
        0 <= i < snap.participants@.len(),
        !is_local(snap.participants@[i], s.local_user_id),
        location_of(snap.participants@[i].location_tag, snap.participants@[i].location_data) is None,
    ensures
        apply_next(s, snap) == s,
        apply_outcome(s, snap) is Err,
        s.status == RoomStatus::Online ==> apply_outcome(s, snap) == Err::<(), RoomError>(
            RoomError::InvalidLocation,
        ),
{
}

impl Room {
    pub closed spec fn wf(&self) -> bool {
        room_inv(self@)
    }

    fn new(id: u64, local_user_id: Option<u64>) -> (r: Room)
        ensures
            r@ == fresh_room(id, local_user_id),
            r.wf(),
    {
        let r = Room {
            id,
            status: RoomStatus::Online,
            local_user_id,
            local_participant: LocalParticipant { projects: Vec::new() },
            remote_participants: HashMap::new(),
            pending_user_ids: Vec::new(),
        };
        assert(r@.registry =~= Map::empty());
        r
    }

    /// Builds the session from the outcome of a create-room request, which
    /// carries the server-issued room id.
    pub fn create(response: Result<u64, String>, local_user_id: Option<u64>) -> (r: Result<
        Room,
        RoomError,
    >)
        ensures
            match response {
                Ok(id) => r matches Ok(room) && room@ == fresh_room(id, local_user_id) && room.wf(),
                Err(_) => r == Err::<Room, RoomError>(RoomError::SignalingFailure),
            },
    {
        match response {
            Ok(id) => Ok(Room::new(id, local_user_id)),
            Err(_) => Err(RoomError::SignalingFailure),
        }
    }

    /// Builds the session for `call` from the outcome of a join-room request,
    /// then reconciles it against the snapshot that the response carries.
    pub fn join(
        call: &Call,
        response: Result<Option<RoomSnapshot>, String>,
        local_user_id: Option<u64>,
    ) -> (r: Result<Room, RoomError>)
        ensures
            match response {
                Err(_) => r == Err::<Room, RoomError>(RoomError::SignalingFailure),
                Ok(None) => r == Err::<Room, RoomError>(RoomError::InvalidRoomState),
                Ok(Some(snap)) => if snapshot_valid(snap.participants@, local_user_id) {
                    r matches Ok(room) && room.wf() && room@ == apply_next(
                        fresh_room(call.room_id, local_user_id),
                        snap,
                    )
                } else {
                    r == Err::<Room, RoomError>(RoomError::InvalidLocation)
                },
            },
    {
        match response {
            Err(_) => Err(RoomError::SignalingFailure),
            Ok(None) => Err(RoomError::InvalidRoomState),
            Ok(Some(snap)) => {
                let mut room = Room::new(call.room_id, local_user_id);
                match room.apply_room_update(snap) {
                    Ok(()) => Ok(room),
                    Err(e) => Err(e),
                }
            },
        }
    }

    /// Takes the session offline and empties the registry. Returns the leave
    /// notification for the server; fails if the session is already offline.
    pub fn leave(&mut self) -> (r: Result<SignalingRequest, RoomError>)
        requires
            old(self).wf(),
        ensures
            final(self).wf(),
            final(self)@ == leave_next(old(self)@),
            r == leave_outcome(old(self)@),
    {
        if self.status.is_offline() {
            return Err(RoomError::RoomOffline);
        }
        self.status = RoomStatus::Offline;
        self.remote_participants.clear();
        assert(self@.registry =~= Map::empty());
        Ok(SignalingRequest::LeaveRoom { room_id: self.id })
    }

    pub fn id(&self) -> (r: u64)
        ensures
            r == self@.id,
    {
        self.id
    }

    pub fn status(&self) -> (r: RoomStatus)
        ensures
            r == self@.status,
    {
        self.status
    }

    pub fn remote_participants(&self) -> (r: &HashMap<u32, RemoteParticipant>)
        ensures
            r@.map_values(|p: RemoteParticipant| p@) == self@.registry,
    {
        &self.remote_participants
    }

    pub fn pending_user_ids(&self) -> (r: &[u64])
        ensures
            r@ == self@.pending_user_ids,
    {
        self.pending_user_ids.as_slice()
    }

    /// Handles a pushed room update, whose payload may lack the snapshot.
    pub fn handle_room_updated(&mut self, room: Option<RoomSnapshot>) -> (r: Result<(), RoomError>)
        requires
            old(self).wf(),
        ensures
            final(self).wf(),
            match room {
                None => r == Err::<(), RoomError>(RoomError::InvalidRoomState) && final(self)@
                    == old(self)@,
                Some(snap) => r == apply_outcome(old(self)@, snap) && final(self)@ == apply_next(
                    old(self)@,
                    snap,
                ),
            },
    {
        match room {
            None => Err(RoomError::InvalidRoomState),
            Some(snap) => self.apply_room_update(snap),
        }
    }

    /// Replaces the registry and the pending invites with what `room` reports.
    /// All or nothing: on any error the session is left as it was.
    pub fn apply_room_update(&mut self, room: RoomSnapshot) -> (r: Result<(), RoomError>)
        requires
            old(self).wf(),
        ensures
            final(self).wf(),
            final(self)@ == apply_next(old(self)@, room),
            r == apply_outcome(old(self)@, room),
    {
        if self.status.is_offline() {
            return Err(RoomError::RoomOffline);
        }
        let records = &room.participants;
        let n = records.len();
        let mut i: usize = 0;
        while i < n
            invariant
                n == records@.len(),
                i <= n,
                *self == *old(self),
                self.wf(),
                old(self)@.status == RoomStatus::Online,
                records@ == room.participants@,
                forall|j: int|
                    0 <= j < i && !is_local(#[trigger] records@[j], self.local_user_id)
                        ==> location_of(records@[j].location_tag, records@[j].location_data) is Some,
            decreases n - i,
        {
            let rec = records[i];
            let local = match self.local_user_id {
                Some(u) => u == rec.user_id,
                None => false,
            };
            if !local {
                if ParticipantLocation::from_record(rec.location_tag, rec.location_data).is_none() {
                    assert(!is_local(records@[i as int], self.local_user_id));
                    assert(!snapshot_valid(records@, self.local_user_id));
                    return Err(RoomError::InvalidLocation);
                }
            }
            i = i + 1;
        }
        self.remote_participants.clear();
        let ghost start = self@;
        let mut k: usize = 0;
        while k < n
            invariant
                n == records@.len(),
                k <= n,
                records@ == room.participants@,
                start.local_user_id == old(self)@.local_user_id,
                snapshot_valid(records@, self.local_user_id),
                self@ == (RoomView { registry: self@.registry, ..start }),
                self@.registry == registry_of(records@.take(k as int), self.local_user_id),
            decreases n - k,
        {
            let rec = records[k];
            assert(records@.take(k + 1).drop_last() =~= records@.take(k as int));
            assert(records@.take(k + 1).last() == records@[k as int]);
            let local = match self.local_user_id {
                Some(u) => u == rec.user_id,
                None => false,
            };
            if !local {
                if let Some(location) = ParticipantLocation::from_record(
                    rec.location_tag,
                    rec.location_data,
                ) {
                    let ghost before = self.remote_participants@;
                    let p = RemoteParticipant { user_id: rec.user_id, projects: Vec::new(), location };
                    self.remote_participants.insert(rec.peer_id, p);
                    assert(self.remote_participants@.map_values(|p: RemoteParticipant| p@)
                        =~= before.map_values(|p: RemoteParticipant| p@).insert(rec.peer_id, p@));
                }
            }
            k = k + 1;
        }
        assert(records@.take(n as int) =~= records@);
        self.pending_user_ids = room.pending_user_ids;
        proof {
            lemma_registry_of_excludes_local(records@, self.local_user_id);
        }
        Ok(())
    }

    /// Asks the server to invite `to_user_id` into this room. The invite shows up
    /// in the pending list only once a later snapshot reports it.
    pub fn call(&mut self, to_user_id: u64) -> (r: Result<SignalingRequest, RoomError>)
        ensures
            *final(self) == *old(self),
            old(self)@.status == RoomStatus::Offline ==> r == Err::<SignalingRequest, RoomError>(
                RoomError::RoomOffline,
            ),
            old(self)@.status == RoomStatus::Online ==> r == Ok::<SignalingRequest, RoomError>(
                SignalingRequest::Call { room_id: old(self)@.id, to_user_id },
            ),
    {
        if self.status.is_offline() {
            return Err(RoomError::RoomOffline);
        }
        Ok(SignalingRequest::Call { room_id: self.id, to_user_id })
    }

    /// Gate for sharing a project with the room. Local state is not changed here:
    /// the shared project is recorded once a snapshot confirms it.
    pub fn publish_project(&mut self, project_id: u64) -> (r: Result<(), RoomError>)
        ensures
            *final(self) == *old(self),
            r == online_gate(old(self)@),
    {
        if self.status.is_offline() {
            return Err(RoomError::RoomOffline);
        }
        Ok(())
    }

    /// Gate for withdrawing a shared project; confirmed by a later snapshot.
    pub fn unpublish_project(&mut self, project_id: u64) -> (r: Result<(), RoomError>)
        ensures
            *final(self) == *old(self),
            r == online_gate(old(self)@),
    {
        if self.status.is_offline() {
            return Err(RoomError::RoomOffline);
        }
        Ok(())
    }

    /// Gate for changing the project the local user is looking at; confirmed by a
    /// later snapshot.
    pub fn set_active_project(&mut self, project_id: Option<u64>) -> (r: Result<(), RoomError>)
        ensures
            *final(self) == *old(self),
            r == online_gate(old(self)@),
    {
        if self.status.is_offline() {
            return Err(RoomError::RoomOffline);
        }
        Ok(())
    }

    /// Gate for muting the local microphone.
    pub fn mute(&mut self) -> (r: Result<(), RoomError>)
        ensures
            *final(self) == *old(self),
            r == online_gate(old(self)@),
    {
        if self.status.is_offline() {
            return Err(RoomError::RoomOffline);
        }
        Ok(())
    }

    /// Gate for unmuting the local microphone.
    pub fn unmute(&mut self) -> (r: Result<(), RoomError>)
        ensures
            *final(self) == *old(self),
            r == online_gate(old(self)@),
    {
        if self.status.is_offline() {
            return Err(RoomError::RoomOffline);
        }
        Ok(())
    }
}

} // verus!
