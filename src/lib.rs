pub mod monitor;
pub mod participant;
pub mod room;

pub use monitor::{ConnectionStatus, MonitorPhase, SessionMonitor};
pub use participant::{
    LocalParticipant, ParticipantLocation, ParticipantRecord, RemoteParticipant, RoomSnapshot,
};
pub use room::{Call, Event, Room, RoomError, RoomStatus, RoomView, SignalingRequest};
