//! The publishing side: what it is configured with, the record it sends,
//! and the codec it encodes with.

use vstd::prelude::*;
use crate::connection::{settings_for, ConnectionRecord, ConnectionSettings};
use crate::encoding::{codec_named, select_codec, Codec, CodecError};
use crate::qos::{level_of, QosLevel};
use crate::sampling::draw_signal_strength;
use crate::sensor::{
    assemble, record_for, samples_fit, signal_fits, tier_named, PayloadTier, SensorData,
    SensorRecord, Timestamp,
};

verus! {

/// A publisher of sensor records.
#[derive(Clone, Debug, PartialEq, Eq)]
pub struct SensorDataPublisher {
    pub settings: ConnectionSettings,
    pub encoding: String,
    pub qos: QosLevel,
}

/// What a `SensorDataPublisher` holds, as plain values.
pub struct PublisherRecord {
    pub settings: ConnectionRecord,
    pub encoding: Seq<char>,
    pub qos: QosLevel,
}

impl View for SensorDataPublisher {
    type V = PublisherRecord;

    open spec fn view(&self) -> PublisherRecord {
        PublisherRecord { settings: self.settings@, encoding: self.encoding@, qos: self.qos }
    }
}

/// The signal strength that a record reports, or 0 where it reports none.
pub open spec fn reported_signal(record: SensorRecord) -> i32 {
    match record.signal_strength {
        Some(signal) => signal,
        None => 0,
    }
}

impl SensorDataPublisher {
    /// A publisher that connects to `broker` under the name `rust-publisher`
    /// and sends in the named encoding at the delivery level that `qos`
    /// selects. The encoding's name is taken as it is: an unknown one shows
    /// when a codec is asked for.
    pub fn new(broker: String, port: u16, encoding: String, qos: u8) -> (publisher: SensorDataPublisher)
        ensures
            publisher@ == (PublisherRecord {
                settings: settings_for("rust-publisher"@, broker@, port),
                encoding: encoding@,
                qos: level_of(qos),
            }),
    {
        SensorDataPublisher {
            settings: ConnectionSettings::new("rust-publisher", broker, port),
            encoding,
            qos: QosLevel::from_number(qos),
        }
    }

    /// The record to send next: the record of the named tier for the sensor,
    /// the clock reading and the samples, with a signal strength drawn here
    /// where the tier reports one. There is a record exactly if the samples
    /// were drawn to the tier's plan.
    pub fn create_sensor_data(
        &self,
        sensor_id: &str,
        payload_size: &str,
        now: Timestamp,
        samples: &Vec<i32>,
    ) -> (data: Option<SensorData>)
        ensures
            data is Some <==> samples_fit(tier_named(payload_size@), samples@),
            data is Some ==> data->0@ == record_for(
                sensor_id@,
                tier_named(payload_size@),
                now,
                samples@,
                reported_signal(data->0@),
            ),
            data is Some && !(tier_named(payload_size@) is Small) ==> signal_fits(
                reported_signal(data->0@),
            ),
    {
        let tier = PayloadTier::from_name(payload_size);
        let signal: i32 = match tier {
            PayloadTier::Small => 0,
            _ => draw_signal_strength(),
        };
        assemble(sensor_id, tier, now, samples, signal)
    }

    /// The codec with which this publisher encodes its records, or an error
    /// where its encoding is not a known one.
    pub fn codec(&self) -> (selected: Result<Codec, CodecError>)
        ensures
            selected == codec_named(self.encoding@),
    {
        select_codec(self.encoding.as_str())
    }
}

/// Whether a pause follows the message with the given index in a run of
/// `count` messages: one follows every message but the last.
pub fn pause_follows(index: u32, count: u32) -> (pause: bool)
    ensures
        pause == (index + 1 < count),
{
    count > 0 && index < count - 1
}

} // verus!
