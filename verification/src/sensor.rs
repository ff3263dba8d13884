//! The sensor record, the three payload tiers, and how a record is put
//! together from a clock reading and a list of drawn samples.
//!
//! Measurements are kept in fixed point: a whole number of units and the
//! number of units that make one. Whoever needs a fraction divides.

use vstd::prelude::*;
use crate::text::{padding, repeated, same_text};

verus! {

/// Readings in the list that a large payload carries.
pub const READING_COUNT: usize = 100;

/// Letters of padding in a medium payload.
pub const MEDIUM_PADDING: usize = 1500;

/// Letters of padding in a large payload.
pub const LARGE_PADDING: usize = 60000;

/// A fixed-point number: `units / per_one`.
#[derive(Clone, Copy, Debug, PartialEq, Eq, Structural)]
pub struct Decimal {
    pub units: i32,
    pub per_one: i32,
}

/// A point in time: whole seconds since the Unix epoch and the nanoseconds
/// of the second that has begun.
#[derive(Clone, Copy, Debug, PartialEq, Eq, Structural)]
pub struct Timestamp {
    pub secs: u64,
    pub nanos: u32,
}

/// Where the sensor stands.
#[derive(Clone, Copy, Debug, PartialEq, Eq, Structural)]
pub struct Location {
    pub lat: Decimal,
    pub lon: Decimal,
    pub altitude: Decimal,
}

/// What is known about the device.
#[derive(Clone, Debug, PartialEq, Eq)]
pub struct Metadata {
    pub firmware_version: String,
    pub hardware_id: String,
    pub calibration_date: String,
    pub last_maintenance: String,
}

/// One sample of a sensor. The first five fields are always present; the
/// others are filled in only by the larger payload tiers.
#[derive(Clone, Debug, PartialEq, Eq)]
pub struct SensorData {
    pub timestamp: Timestamp,
    pub sensor_id: String,
    pub temperature: Decimal,
    pub humidity: Decimal,
    pub pressure: Decimal,
    pub location: Option<Location>,
    pub status: Option<String>,
    pub battery_level: Option<Decimal>,
    pub signal_strength: Option<i32>,
    pub sensor_readings: Option<Vec<Decimal>>,
    pub metadata: Option<Metadata>,
    pub additional_data: Option<String>,
}

/// What a `Metadata` holds, as plain text.
pub struct MetadataRecord {
    pub firmware_version: Seq<char>,
    pub hardware_id: Seq<char>,
    pub calibration_date: Seq<char>,
    pub last_maintenance: Seq<char>,
}

/// What a `SensorData` holds, as plain values.
pub struct SensorRecord {
    pub timestamp: Timestamp,
    pub sensor_id: Seq<char>,
    pub temperature: Decimal,
    pub humidity: Decimal,
    pub pressure: Decimal,
    pub location: Option<Location>,
    pub status: Option<Seq<char>>,
    pub battery_level: Option<Decimal>,
    pub signal_strength: Option<i32>,
    pub sensor_readings: Option<Seq<Decimal>>,
    pub metadata: Option<MetadataRecord>,
    pub additional_data: Option<Seq<char>>,
}

impl View for Metadata {
    type V = MetadataRecord;

    open spec fn view(&self) -> MetadataRecord {
        MetadataRecord {
            firmware_version: self.firmware_version@,
            hardware_id: self.hardware_id@,
            calibration_date: self.calibration_date@,
            last_maintenance: self.last_maintenance@,
        }
    }
}

impl View for SensorData {
    type V = SensorRecord;

    open spec fn view(&self) -> SensorRecord {
        SensorRecord {
            timestamp: self.timestamp,
            sensor_id: self.sensor_id@,
            temperature: self.temperature,
            humidity: self.humidity,
            pressure: self.pressure,
            location: self.location,
            status: match self.status {
                Some(text) => Some(text@),
                None => None,
            },
            battery_level: self.battery_level,
            signal_strength: self.signal_strength,
            sensor_readings: match self.sensor_readings {
                Some(list) => Some(list@),
                None => None,
            },
            metadata: match self.metadata {
                Some(metadata) => Some(metadata@),
                None => None,
            },
            additional_data: match self.additional_data {
                Some(text) => Some(text@),
                None => None,
            },
        }
    }
}

/// How much a message carries.
#[derive(Clone, Copy, Debug, PartialEq, Eq, Structural)]
pub enum PayloadTier {
    /// Only the fields that are always present.
    Small,
    /// Location, status, battery level, signal strength and some padding.
    Medium,
    /// All of medium, a list of readings, the device's metadata, and much
    /// more padding.
    Large,
}

/// The tier that a name selects. Every name but `medium` and `large` selects
/// the small tier.
pub open spec fn tier_named(name: Seq<char>) -> PayloadTier {
    if name == "medium"@ {
        PayloadTier::Medium
    } else if name == "large"@ {
        PayloadTier::Large
    } else {
        PayloadTier::Small
    }
}

impl PayloadTier {
    /// Letters of padding that a message of this tier carries.
    pub open spec fn spec_padding_len(self) -> nat {
        match self {
            PayloadTier::Small => 0,
            PayloadTier::Medium => 1500,
            PayloadTier::Large => 60000,
        }
    }

    /// Readings in the list that a message of this tier carries.
    pub open spec fn spec_reading_count(self) -> nat {
        match self {
            PayloadTier::Large => 100,
            _ => 0,
        }
    }

    /// Selects a tier by name; an unknown name selects the small tier.
    pub fn from_name(name: &str) -> (tier: PayloadTier)
        ensures
            tier == tier_named(name@),
    {
        if same_text(name, "medium") {
            PayloadTier::Medium
        } else if same_text(name, "large") {
            PayloadTier::Large
        } else {
            PayloadTier::Small
        }
    }

    /// Letters of padding that a message of this tier carries.
    pub fn padding_len(self) -> (len: usize)
        ensures
            len == self.spec_padding_len(),
    {
        match self {
            PayloadTier::Small => 0,
            PayloadTier::Medium => MEDIUM_PADDING,
            PayloadTier::Large => LARGE_PADDING,
        }
    }

    /// Readings in the list that a message of this tier carries.
    pub fn reading_count(self) -> (count: usize)
        ensures
            count == self.spec_reading_count(),
    {
        match self {
            PayloadTier::Large => READING_COUNT,
            _ => 0,
        }
    }
}

/// A measured quantity that is drawn at random for each message.
#[derive(Clone, Copy, Debug, PartialEq, Eq, Structural)]
pub enum Quantity {
    Temperature,
    Humidity,
    Pressure,
    BatteryLevel,
    Reading,
}

/// How a quantity is drawn: a number `r` is taken uniformly from
/// `low <= r < high`, and the sample is `offset + r * scale`, rounded to the
/// nearest whole number of units, of which `divisor` make one.
#[derive(Clone, Copy, Debug, PartialEq, Eq, Structural)]
pub struct SampleRange {
    pub low: i32,
    pub high: i32,
    pub offset: i32,
    pub scale: i32,
    pub divisor: i32,
}

impl SampleRange {
    /// The least sample that a draw can give.
    pub open spec fn least(self) -> int {
        self.offset + self.low * self.scale
    }

    /// The greatest sample that a draw can give.
    pub open spec fn greatest(self) -> int {
        self.offset + self.high * self.scale
    }
}

impl Quantity {
    /// How this quantity is drawn.
    pub open spec fn spec_range(self) -> SampleRange {
        match self {
            Quantity::Temperature => SampleRange {
                low: -5i32,
                high: 15,
                offset: 20,
                scale: 100,
                divisor: 100,
            },
            Quantity::Humidity => SampleRange {
                low: 0,
                high: 40,
                offset: 30,
                scale: 100,
                divisor: 100,
            },
            Quantity::Pressure => SampleRange {
                low: -50i32,
                high: 50,
                offset: 1000,
                scale: 100,
                divisor: 100,
            },
            Quantity::BatteryLevel => SampleRange {
                low: 20,
                high: 100,
                offset: 0,
                scale: 10,
                divisor: 10,
            },
            Quantity::Reading => SampleRange {
                low: 0,
                high: 100,
                offset: 0,
                scale: 100,
                divisor: 100,
            },
        }
    }

    /// Whether a draw of this quantity can give `units`.
    pub open spec fn spec_admits(self, units: i32) -> bool {
        self.spec_range().least() <= units <= self.spec_range().greatest()
    }

    /// The value that a sample of `units` stands for.
    pub open spec fn spec_value(self, units: i32) -> Decimal {
        Decimal { units, per_one: self.spec_range().divisor }
    }

    /// How this quantity is drawn.
    pub fn range(self) -> (range: SampleRange)
        ensures
            range == self.spec_range(),
            range.low < range.high,
            range.scale > 0,
            range.divisor > 0,
    {
        match self {
            Quantity::Temperature => SampleRange {
                low: -5,
                high: 15,
                offset: 20,
                scale: 100,
                divisor: 100,
            },
            Quantity::Humidity => SampleRange {
                low: 0,
                high: 40,
                offset: 30,
                scale: 100,
                divisor: 100,
            },
            Quantity::Pressure => SampleRange {
                low: -50,
                high: 50,
                offset: 1000,
                scale: 100,
                divisor: 100,
            },
            Quantity::BatteryLevel => SampleRange {
                low: 20,
                high: 100,
                offset: 0,
                scale: 10,
                divisor: 10,
            },
            Quantity::Reading => SampleRange {
                low: 0,
                high: 100,
                offset: 0,
                scale: 100,
                divisor: 100,
            },
        }
    }

    /// Whether a draw of this quantity can give `units`.
    pub fn admits(self, units: i32) -> (fits: bool)
        ensures
            fits == self.spec_admits(units),
    {
        match self {
            Quantity::Temperature => -480 <= units && units <= 1520,
            Quantity::Humidity => 30 <= units && units <= 4030,
            Quantity::Pressure => -4000 <= units && units <= 6000,
            Quantity::BatteryLevel => 200 <= units && units <= 1000,
            Quantity::Reading => 0 <= units && units <= 10000,
        }
    }

    /// The value that a sample of `units` stands for.
    pub fn value(self, units: i32) -> (value: Decimal)
        ensures
            value == self.spec_value(units),
    {
        Decimal { units, per_one: self.range().divisor }
    }
}

/// The quantities to draw for a message of a tier, in the order in which the
/// samples are handed over: temperature, humidity and pressure for every
/// tier, then the battery level for medium and large, then the readings of a
/// large payload.
pub open spec fn plan_for(tier: PayloadTier) -> Seq<Quantity> {
    let always = seq![Quantity::Temperature, Quantity::Humidity, Quantity::Pressure];
    match tier {
        PayloadTier::Small => always,
        PayloadTier::Medium => always.push(Quantity::BatteryLevel),
        PayloadTier::Large => always.push(Quantity::BatteryLevel) + Seq::new(
            100,
            |i: int| Quantity::Reading,
        ),
    }
}

/// Whether `samples` holds one admissible sample for each quantity of the
/// tier's plan, and no more.
pub open spec fn samples_fit(tier: PayloadTier, samples: Seq<i32>) -> bool {
    &&& samples.len() == plan_for(tier).len()
    &&& forall|i: int| 0 <= i < samples.len() ==> (#[trigger] plan_for(tier)[i]).spec_admits(samples[i])
}

/// Whether a signal strength, in dBm, is one that a sensor reports.
pub open spec fn signal_fits(signal: i32) -> bool {
    -100 <= signal < -30
}

/// The place where every sensor of the fleet stands.
pub open spec fn site() -> Location {
    Location {
        lat: Decimal { units: 407128, per_one: 10000 },
        lon: Decimal { units: -740060i32, per_one: 10000 },
        altitude: Decimal { units: 105, per_one: 10 },
    }
}

/// What is known about every device of the fleet.
pub open spec fn device_metadata() -> MetadataRecord {
    MetadataRecord {
        firmware_version: "1.2.3"@,
        hardware_id: "HW-001"@,
        calibration_date: "2024-01-01"@,
        last_maintenance: "2024-06-01"@,
    }
}

/// The record of a tier for a sensor, a clock reading, the samples drawn to
/// the tier's plan, and a signal strength.
pub open spec fn record_for(
    sensor_id: Seq<char>,
    tier: PayloadTier,
    now: Timestamp,
    samples: Seq<i32>,
    signal: i32,
) -> SensorRecord {
    SensorRecord {
        timestamp: now,
        sensor_id,
        temperature: Quantity::Temperature.spec_value(samples[0]),
        humidity: Quantity::Humidity.spec_value(samples[1]),
        pressure: Quantity::Pressure.spec_value(samples[2]),
        location: if tier is Small {
            None
        } else {
            Some(site())
        },
        status: if tier is Small {
            None
        } else {
            Some("active"@)
        },
        battery_level: if tier is Small {
            None
        } else {
            Some(Quantity::BatteryLevel.spec_value(samples[3]))
        },
        signal_strength: if tier is Small {
            None
        } else {
            Some(signal)
        },
        sensor_readings: if tier is Large {
            Some(Seq::new(100, |i: int| Quantity::Reading.spec_value(samples[4 + i])))
        } else {
            None
        },
        metadata: if tier is Large {
            Some(device_metadata())
        } else {
            None
        },
        additional_data: if tier is Small {
            None
        } else {
            Some(repeated('x', tier.spec_padding_len()))
        },
    }
}

/// A record carries exactly the optional fields of its tier: none for small;
/// location, status, battery level, signal strength and padding for medium
/// and large; the readings and the metadata for large alone. The list of
/// readings and the padding have the lengths that the tier gives.
pub proof fn lemma_record_shape(
    sensor_id: Seq<char>,
    tier: PayloadTier,
    now: Timestamp,
    samples: Seq<i32>,
    signal: i32,
)
    ensures
        ({
            let record = record_for(sensor_id, tier, now, samples, signal);
            &&& record.timestamp == now
            &&& record.sensor_id == sensor_id
            &&& record.location is Some <==> !(tier is Small)
            &&& record.status is Some <==> !(tier is Small)
            &&& record.battery_level is Some <==> !(tier is Small)
            &&& record.signal_strength is Some <==> !(tier is Small)
            &&& record.additional_data is Some <==> !(tier is Small)
            &&& record.sensor_readings is Some <==> tier is Large
            &&& record.metadata is Some <==> tier is Large
            &&& record.sensor_readings is Some ==> record.sensor_readings->0.len()
                == tier.spec_reading_count()
            &&& record.additional_data is Some ==> record.additional_data->0.len()
                == tier.spec_padding_len()
        }),
{
}

/// Every measurement of a record lies within what a draw of its quantity can
/// give, provided that the samples were drawn to the tier's plan, and the
/// signal strength that it reports is one that a sensor reports.
pub proof fn lemma_record_in_range(
    sensor_id: Seq<char>,
    tier: PayloadTier,
    now: Timestamp,
    samples: Seq<i32>,
    signal: i32,
)
    requires
        samples_fit(tier, samples),
        tier is Small || signal_fits(signal),
    ensures
        ({
            let record = record_for(sensor_id, tier, now, samples, signal);
            &&& Quantity::Temperature.spec_admits(record.temperature.units)
            &&& Quantity::Humidity.spec_admits(record.humidity.units)
            &&& Quantity::Pressure.spec_admits(record.pressure.units)
            &&& record.battery_level is Some ==> Quantity::BatteryLevel.spec_admits(
                record.battery_level->0.units,
            )
            &&& record.signal_strength is Some ==> signal_fits(record.signal_strength->0)
            &&& record.sensor_readings is Some ==> forall|i: int|
                0 <= i < record.sensor_readings->0.len() ==> Quantity::Reading.spec_admits(
                    (#[trigger] record.sensor_readings->0[i]).units,
                )
        }),
{
    let plan = plan_for(tier);
    assert(plan[0] == Quantity::Temperature);
    assert(plan[1] == Quantity::Humidity);
    assert(plan[2] == Quantity::Pressure);
    if !(tier is Small) {
        assert(plan[3] == Quantity::BatteryLevel);
    }
    if tier is Large {
        let record = record_for(sensor_id, tier, now, samples, signal);
        assert forall|i: int| 0 <= i < record.sensor_readings->0.len() implies Quantity::Reading.spec_admits(
            (#[trigger] record.sensor_readings->0[i]).units,
        ) by {
            assert(plan[4 + i] == Quantity::Reading);
        }
    }
}

/// The quantities to draw for a message of a tier, in order.
pub fn sample_plan(tier: PayloadTier) -> (plan: Vec<Quantity>)
    ensures
        plan@ == plan_for(tier),
{
    let mut plan: Vec<Quantity> = Vec::new();
    plan.push(Quantity::Temperature);
    plan.push(Quantity::Humidity);
    plan.push(Quantity::Pressure);
    match tier {
        PayloadTier::Small => {
            assert(plan@ =~= plan_for(tier));
        },
        PayloadTier::Medium => {
            plan.push(Quantity::BatteryLevel);
            assert(plan@ =~= plan_for(tier));
        },
        PayloadTier::Large => {
            plan.push(Quantity::BatteryLevel);
            let ghost head = plan@;
            let mut done: usize = 0;
            while done < READING_COUNT
                invariant
                    done <= READING_COUNT,
                    plan@ == head + Seq::new(done as nat, |i: int| Quantity::Reading),
                decreases READING_COUNT - done,
            {
                plan.push(Quantity::Reading);
                done += 1;
                assert(plan@ =~= head + Seq::new(done as nat, |i: int| Quantity::Reading));
            }
            assert(plan@ =~= plan_for(tier));
        },
    }
    plan
}

/// Whether `samples` holds one admissible sample for each quantity of the
/// tier's plan, and no more.
pub fn fits_plan(tier: PayloadTier, samples: &Vec<i32>) -> (fit: bool)
    ensures
        fit == samples_fit(tier, samples@),
{
    let plan = sample_plan(tier);
    if samples.len() != plan.len() {
        return false;
    }
    let mut at: usize = 0;
    while at < samples.len()
        invariant
            at <= samples@.len(),
            samples@.len() == plan@.len(),
            plan@ == plan_for(tier),
            forall|i: int| 0 <= i < at ==> (#[trigger] plan_for(tier)[i]).spec_admits(samples@[i]),
        decreases samples@.len() - at,
    {
        if !plan[at].admits(samples[at]) {
            return false;
        }
        at += 1;
    }
    true
}

/// The list of readings of a large payload: the samples from the fifth on.
fn readings_of(samples: &Vec<i32>) -> (list: Vec<Decimal>)
    requires
        samples@.len() == 104,
    ensures
        list@ == Seq::new(100, |i: int| Quantity::Reading.spec_value(samples@[4 + i])),
{
    let mut list: Vec<Decimal> = Vec::new();
    let mut done: usize = 0;
    while done < READING_COUNT
        invariant
            done <= READING_COUNT,
            samples@.len() == 104,
            list@ == Seq::new(done as nat, |i: int| Quantity::Reading.spec_value(samples@[4 + i])),
        decreases READING_COUNT - done,
    {
        list.push(Quantity::Reading.value(samples[4 + done]));
        done += 1;
        assert(list@ =~= Seq::new(
            done as nat,
            |i: int| Quantity::Reading.spec_value(samples@[4 + i]),
        ));
    }
    list
}

/// Puts a record together. The samples must have been drawn to the tier's
/// plan, and for a tier that reports a signal strength the strength must be
/// one that a sensor reports; otherwise there is no record.
pub fn assemble(
    sensor_id: &str,
    tier: PayloadTier,
    now: Timestamp,
    samples: &Vec<i32>,
    signal: i32,
) -> (data: Option<SensorData>)
    ensures
        data is Some <==> samples_fit(tier, samples@) && (tier is Small || signal_fits(signal)),
        data is Some ==> data->0@ == record_for(sensor_id@, tier, now, samples@, signal),
{
    if !fits_plan(tier, samples) {
        return None;
    }
    let mut data = SensorData {
        timestamp: now,
        sensor_id: sensor_id.to_owned(),
        temperature: Quantity::Temperature.value(samples[0]),
        humidity: Quantity::Humidity.value(samples[1]),
        pressure: Quantity::Pressure.value(samples[2]),
        location: None,
        status: None,
        battery_level: None,
        signal_strength: None,
        sensor_readings: None,
        metadata: None,
        additional_data: None,
    };
    match tier {
        PayloadTier::Small => {},
        _ => {
            if signal < -100 || signal >= -30 {
                return None;
            }
            data.location = Some(
                Location {
                    lat: Decimal { units: 407128, per_one: 10000 },
                    lon: Decimal { units: -740060, per_one: 10000 },
                    altitude: Decimal { units: 105, per_one: 10 },
                },
            );
            data.status = Some("active".to_owned());
            data.battery_level = Some(Quantity::BatteryLevel.value(samples[3]));
            data.signal_strength = Some(signal);
            data.additional_data = Some(padding(tier.padding_len()));
        },
    }
    match tier {
        PayloadTier::Large => {
            data.sensor_readings = Some(readings_of(samples));
            data.metadata = Some(
                Metadata {
                    firmware_version: "1.2.3".to_owned(),
                    hardware_id: "HW-001".to_owned(),
                    calibration_date: "2024-01-01".to_owned(),
                    last_maintenance: "2024-06-01".to_owned(),
                },
            );
        },
        _ => {},
    }
    Some(data)
}

} // verus!
