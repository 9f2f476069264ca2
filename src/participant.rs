use vstd::prelude::*;

verus! {

/// Where a remote participant currently is relative to the room's projects.
#[derive(Clone, Copy, Debug, PartialEq, Eq, Structural)]
pub enum ParticipantLocation {
    /// Not looking at any project of the room.
    External,
    /// Viewing the shared project with the given identifier.
    SharedProject { project_id: u64 },
    /// Viewing a project that is not shared with the room.
    UnsharedProject,
}

/// Wire tag of [`ParticipantLocation::External`].
pub const LOCATION_EXTERNAL: u32 = 0;

/// Wire tag of [`ParticipantLocation::SharedProject`]; the record carries the project id.
pub const LOCATION_SHARED_PROJECT: u32 = 1;

/// Wire tag of [`ParticipantLocation::UnsharedProject`].
pub const LOCATION_UNSHARED_PROJECT: u32 = 2;

/// The location a wire tag and its optional data stand for, if they are recognized.
pub open spec fn location_of(tag: u32, data: Option<u64>) -> Option<ParticipantLocation> {
    if tag == LOCATION_EXTERNAL {
        Some(ParticipantLocation::External)
    } else if tag == LOCATION_SHARED_PROJECT {
        match data {
            Some(project_id) => Some(ParticipantLocation::SharedProject { project_id }),
            None => None,
        }
    } else if tag == LOCATION_UNSHARED_PROJECT {
        Some(ParticipantLocation::UnsharedProject)
    } else {
        None
    }
}

/// One participant as a room snapshot reports it.
#[derive(Clone, Copy, Debug)]
pub struct ParticipantRecord {
    pub user_id: u64,
    pub peer_id: u32,
    pub location_tag: u32,
    pub location_data: Option<u64>,
}

/// The authoritative state of a room, as pushed by the server.
#[derive(Clone, Debug)]
pub struct RoomSnapshot {
    pub room_id: u64,
    pub participants: Vec<ParticipantRecord>,
    pub pending_user_ids: Vec<u64>,
}

/// Mathematical model of a [`RemoteParticipant`].
pub struct RemoteParticipantView {
    pub user_id: u64,
    pub projects: Seq<u64>,
    pub location: ParticipantLocation,
}

/// A participant of the room other than the local user.
#[derive(Debug)]
pub struct RemoteParticipant {
    pub user_id: u64,
    /// Identifiers of the projects this participant shares.
    pub projects: Vec<u64>,
    pub location: ParticipantLocation,
}

impl View for RemoteParticipant {
    type V = RemoteParticipantView;

    open spec fn view(&self) -> RemoteParticipantView {
        RemoteParticipantView { user_id: self.user_id, projects: self.projects@, location: self.location }
    }
}

/// The local user's side of the room.
#[derive(Debug)]
pub struct LocalParticipant {
    /// Identifiers of the projects the local user shares.
    pub projects: Vec<u64>,
}

impl ParticipantLocation {
    /// Decodes a location from its wire tag and data.
    pub fn from_record(tag: u32, data: Option<u64>) -> (r: Option<ParticipantLocation>)
        ensures
            r == location_of(tag, data),
    {
        if tag == LOCATION_EXTERNAL {
            Some(ParticipantLocation::External)
        } else if tag == LOCATION_SHARED_PROJECT {
            match data {
                Some(project_id) => Some(ParticipantLocation::SharedProject { project_id }),
                None => None,
            }
        } else if tag == LOCATION_UNSHARED_PROJECT {
            Some(ParticipantLocation::UnsharedProject)
        } else {
            None
        }
    }
}

} // verus!
