//! The part of the voice interface that users of a connection see.

pub use super::{
    SpeakingUpdate, VoiceChannel, VoiceControlChannel, VoiceEvent, VoiceFrame, VoiceMessage,
    VoicePacket,
};
