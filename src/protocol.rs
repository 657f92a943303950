use vstd::prelude::*;

verus! {

/// Default size of a protocol chunk.
pub const CHUNK_SIZE: usize = 128;

/// Message kinds of the wire protocol, by their type identifier.
#[derive(Debug, Clone, Copy, PartialEq, Eq, Structural)]
pub enum MessageType {
    SetChunkSize,
    AbortMessage,
    Ack,
    UserControl,
    WindowAckSize,
    SetPeerBandwidth,
    AudioMessage,
    VideoMessage,
    DataMessage,
    Command,
}

/// The type identifier that the wire carries for each message kind.
pub open spec fn spec_type_id(t: MessageType) -> u8 {
    match t {
        MessageType::SetChunkSize => 1,
        MessageType::AbortMessage => 2,
        MessageType::Ack => 3,
        MessageType::UserControl => 4,
        MessageType::WindowAckSize => 5,
        MessageType::SetPeerBandwidth => 6,
        MessageType::AudioMessage => 8,
        MessageType::VideoMessage => 9,
        MessageType::DataMessage => 18,
        MessageType::Command => 20,
    }
}

impl MessageType {
    /// The type identifier of this kind.
    pub fn type_id(&self) -> (r: u8)
        ensures
            r == spec_type_id(*self),
    {
        match self {
            MessageType::SetChunkSize => 1,
            MessageType::AbortMessage => 2,
            MessageType::Ack => 3,
            MessageType::UserControl => 4,
            MessageType::WindowAckSize => 5,
            MessageType::SetPeerBandwidth => 6,
            MessageType::AudioMessage => 8,
            MessageType::VideoMessage => 9,
            MessageType::DataMessage => 18,
            MessageType::Command => 20,
        }
    }

    /// The kind with type identifier `id`, if the protocol defines one.
    pub fn from_type_id(id: u8) -> (r: Option<MessageType>)
        ensures
            r matches Some(t) ==> spec_type_id(t) == id,
            r is None ==> forall|t: MessageType| spec_type_id(t) != id,
    {
        match id {
            1 => Some(MessageType::SetChunkSize),
            2 => Some(MessageType::AbortMessage),
            3 => Some(MessageType::Ack),
            4 => Some(MessageType::UserControl),
            5 => Some(MessageType::WindowAckSize),
            6 => Some(MessageType::SetPeerBandwidth),
            8 => Some(MessageType::AudioMessage),
            9 => Some(MessageType::VideoMessage),
            18 => Some(MessageType::DataMessage),
            20 => Some(MessageType::Command),
            _ => None,
        }
    }
}

/// Header of one protocol chunk.
#[derive(Debug, Clone, Copy, PartialEq, Eq, Structural)]
pub struct RtmpHeader {
    pub format: u8,
    pub chunk_stream_id: u32,
    pub timestamp: u32,
    pub message_length: u32,
    pub message_type_id: u8,
    pub message_stream_id: u32,
}

} // verus!
