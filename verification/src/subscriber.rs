//! The subscribing side: what it is configured with, the codec it decodes
//! with, and its count of the messages that it could read.

use vstd::prelude::*;
use crate::connection::{settings_for, ConnectionRecord, ConnectionSettings};
use crate::encoding::{codec_named, select_codec, Codec, CodecError};
use crate::qos::{level_of, QosLevel};

verus! {

/// A subscriber to sensor records.
#[derive(Clone, Debug, PartialEq, Eq)]
pub struct SensorDataSubscriber {
    pub settings: ConnectionSettings,
    pub encoding: String,
    pub qos: QosLevel,
    pub message_count: u32,
}

/// What a `SensorDataSubscriber` holds, as plain values.
pub struct SubscriberRecord {
    pub settings: ConnectionRecord,
    pub encoding: Seq<char>,
    pub qos: QosLevel,
    pub message_count: u32,
}

impl View for SensorDataSubscriber {
    type V = SubscriberRecord;

    open spec fn view(&self) -> SubscriberRecord {
        SubscriberRecord {
            settings: self.settings@,
            encoding: self.encoding@,
            qos: self.qos,
            message_count: self.message_count,
        }
    }
}

/// What to do about a message that has come in.
#[derive(Clone, Copy, Debug, PartialEq, Eq, Structural)]
pub enum MessageOutcome {
    /// The message was read: report it under this number, counted from 1.
    Accepted { number: u32 },
    /// The message could not be read: report the error and go on.
    Rejected,
}

impl SensorDataSubscriber {
    /// A subscriber that connects to `broker` under the name
    /// `rust-subscriber`, reads the named encoding and subscribes at the
    /// delivery level that `qos` selects. It has counted no message yet.
    pub fn new(broker: String, port: u16, encoding: String, qos: u8) -> (subscriber: SensorDataSubscriber)
        ensures
            subscriber@ == (SubscriberRecord {
                settings: settings_for("rust-subscriber"@, broker@, port),
                encoding: encoding@,
                qos: level_of(qos),
                message_count: 0,
            }),
    {
        SensorDataSubscriber {
            settings: ConnectionSettings::new("rust-subscriber", broker, port),
            encoding,
            qos: QosLevel::from_number(qos),
            message_count: 0,
        }
    }

    /// The codec with which this subscriber decodes what comes in, or an
    /// error where its encoding is not a known one.
    pub fn codec(&self) -> (selected: Result<Codec, CodecError>)
        ensures
            selected == codec_named(self.encoding@),
    {
        select_codec(self.encoding.as_str())
    }

    /// Takes note of a message, given whether it could be decoded. A decoded
    /// message is counted and gets the new count as its number; one that
    /// could not be decoded changes nothing.
    pub fn handle_message(&mut self, decoded: bool) -> (outcome: MessageOutcome)
        requires
            decoded ==> old(self).message_count < u32::MAX,
        ensures
            final(self).settings == old(self).settings,
            final(self).encoding == old(self).encoding,
            final(self).qos == old(self).qos,
            decoded ==> final(self).message_count == old(self).message_count + 1,
            decoded ==> outcome == (MessageOutcome::Accepted { number: final(self).message_count }),
            !decoded ==> final(self).message_count == old(self).message_count,
            !decoded ==> outcome == MessageOutcome::Rejected,
    {
        if decoded {
            self.message_count = self.message_count + 1;
            MessageOutcome::Accepted { number: self.message_count }
        } else {
            MessageOutcome::Rejected
        }
    }
}

} // verus!
