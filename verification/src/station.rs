//! What the reader decides about the station: the request frame for a memory
//! block, the checks on what comes back, the decoding of a current-weather
//! record and the rain-gauge spike filter.

use vstd::prelude::*;

use crate::text::{hex_text, decimal_text, push_decimal, push_hex};

verus! {

/// Number of bytes in one block of the station's memory.
pub const BLOCK_LEN: usize = 32;

/// Memory offset of the fixed block, whose last two bytes point at the
/// current-weather record.
pub const FIXED_BLOCK_OFFSET: u16 = 0;

/// The first byte of a fixed block that the station returned intact.
pub const FIXED_BLOCK_MARKER: u8 = 0x55;

/// The eight-byte control message that asks for the block at `offset`:
/// command byte, high byte, low byte, length, twice over.
pub open spec fn request_frame(offset: u16) -> Seq<u8> {
    let msb = (offset / 256) as u8;
    let lsb = (offset % 256) as u8;
    seq![0xA1u8, msb, lsb, 32u8, 0xA1u8, msb, lsb, 32u8]
}

/// The control message that asks the station for the block at `offset`.
pub fn block_request(offset: u16) -> (frame: [u8; 8])
    ensures
        frame@ == request_frame(offset),
{
    let lsb = (offset % 256) as u8;
    let msb = (offset / 256) as u8;
    let frame = [0xA1u8, msb, lsb, 32u8, 0xA1u8, msb, lsb, 32u8];
    assert(frame@ =~= request_frame(offset));
    frame
}

/// A block request names its offset twice, high byte first, between the read
/// command and the block length.
pub proof fn request_names_its_offset(offset: u16)
    ensures
        request_frame(offset).len() == 8,
        request_frame(offset)[0] == 0xA1 && request_frame(offset)[4] == 0xA1,
        request_frame(offset)[3] == BLOCK_LEN && request_frame(offset)[7] == BLOCK_LEN,
        256 * request_frame(offset)[1] as int + request_frame(offset)[2] as int == offset as int,
        request_frame(offset)[5] == request_frame(offset)[1],
        request_frame(offset)[6] == request_frame(offset)[2],
{
}

/// Why talking to the station failed.
#[derive(Debug)]
pub enum StationError {
    /// No USB device carries the configured vendor and product ids.
    NotFound { vendor_id: u16, product_id: u16 },
    /// The station answered a block request with fewer or more bytes than a block.
    ShortRead { bytes_read: usize },
    /// The fixed block does not start with the marker byte.
    BadData { first_byte: u8 },
}

/// The text of each failure, as it is shown and reported.
pub open spec fn error_text(e: StationError) -> Seq<char> {
    match e {
        StationError::NotFound { vendor_id, product_id } => "Weather station device not found (vendor: 0x"@
            + hex_text(vendor_id as nat) + ", product: 0x"@ + hex_text(product_id as nat) + ")"@,
        StationError::ShortRead { bytes_read } => "Expected 32 bytes, got "@ + decimal_text(
            bytes_read as nat,
        ),
        StationError::BadData { first_byte } => "Bad data returned, first byte: 0x"@ + hex_text(
            first_byte as nat,
        ),
    }
}

impl StationError {
    /// The text of this failure.
    pub fn message(&self) -> (res: String)
        ensures
            res@ == error_text(*self),
    {
        match self {
            StationError::NotFound { vendor_id, product_id } => {
                let mut res = String::from_str("Weather station device not found (vendor: 0x");
                push_hex(&mut res, *vendor_id as u64);
                res.append(", product: 0x");
                push_hex(&mut res, *product_id as u64);
                res.append(")");
                res
            },
            StationError::ShortRead { bytes_read } => {
                let mut res = String::from_str("Expected 32 bytes, got ");
                push_decimal(&mut res, *bytes_read as u64);
                res
            },
            StationError::BadData { first_byte } => {
                let mut res = String::from_str("Bad data returned, first byte: 0x");
                push_hex(&mut res, *first_byte as u64);
                res
            },
        }
    }
}

/// Accepts an answer to a block request only when it filled a whole block.
pub fn check_block_length(bytes_read: usize) -> (res: Result<(), StationError>)
    ensures
        bytes_read == BLOCK_LEN ==> res is Ok,
        bytes_read != BLOCK_LEN ==> res == Err::<(), StationError>(
            StationError::ShortRead { bytes_read },
        ),
{
    if bytes_read != BLOCK_LEN {
        Err(StationError::ShortRead { bytes_read })
    } else {
        Ok(())
    }
}

/// The little-endian 16-bit number in bytes `i` and `i + 1`.
pub open spec fn le_u16(block: Seq<u8>, i: int) -> u16 {
    (block[i] + 256 * block[i + 1]) as u16
}

/// Where the current-weather record lies, read from an intact fixed block.
pub fn current_position(fixed: &[u8; 32]) -> (res: Result<u16, StationError>)
    ensures
        fixed@[0] == FIXED_BLOCK_MARKER ==> res == Ok::<u16, StationError>(le_u16(fixed@, 30)),
        fixed@[0] == FIXED_BLOCK_MARKER ==> (res matches Ok(position) && position as int
            == fixed@[30] as int + 256 * fixed@[31] as int),
        fixed@[0] != FIXED_BLOCK_MARKER ==> res == Err::<u16, StationError>(
            StationError::BadData { first_byte: fixed@[0] },
        ),
{
    if fixed[0] != FIXED_BLOCK_MARKER {
        return Err(StationError::BadData { first_byte: fixed[0] });
    }
    Ok(fixed[30] as u16 + 256 * fixed[31] as u16)
}

/// A temperature as the station stores it: a magnitude in tenths of a degree
/// Celsius and a sign bit.
#[derive(Clone, Copy, Debug, PartialEq, Eq)]
pub struct Temperature {
    pub tenths: u16,
    pub below_zero: bool,
}

/// The outcome of one rain-gauge reading, in gauge counts of 0.3 mm.
#[derive(Clone, Copy, Debug, PartialEq, Eq)]
pub struct RainStep {
    /// The total that is reported and kept for the next reading.
    pub total_raw: u16,
    /// The total that the rise since the last reading is measured from.
    pub reference_raw: u16,
    /// The rise was larger than the allowed jump and was discarded.
    pub spike: bool,
}

/// A current-weather record, in the station's own units.
#[derive(Clone, Copy, Debug, PartialEq, Eq)]
pub struct Reading {
    /// Relative humidity indoors, in percent.
    pub indoor_humidity: u8,
    /// Relative humidity outdoors, in percent.
    pub outdoor_humidity: u8,
    pub indoor_temperature: Temperature,
    pub outdoor_temperature: Temperature,
    /// Absolute pressure in tenths of a hectopascal.
    pub abs_pressure_tenths: u16,
    /// Average wind speed in steps of 0.38 m/s.
    pub wind_raw: u16,
    /// Gust speed in steps of 0.38 m/s.
    pub gust_raw: u16,
    /// Compass point, 0 (north) to 15, clockwise.
    pub wind_direction_index: usize,
    pub rain: RainStep,
}

/// The temperature in bytes `i` (low) and `i + 1` (high seven bits and sign).
pub open spec fn temperature_at(block: Seq<u8>, i: int) -> Temperature {
    Temperature { tenths: ((block[i + 1] % 128) * 256 + block[i]) as u16, below_zero: block[i + 1] >= 128 }
}

/// One reading of the rain gauge: the first non-zero total becomes the
/// reference; a rise of more than `max_jump_tenths` tenths of a millimetre is
/// a spike, and then the reference is kept in place of the new total.
pub open spec fn rain_step(previous_raw: u16, total_raw: u16, max_jump_tenths: i64) -> RainStep {
    let reference = if previous_raw == 0 { total_raw } else { previous_raw };
    let spike = 3 * (total_raw - reference) > max_jump_tenths;
    RainStep { total_raw: if spike { reference } else { total_raw }, reference_raw: reference, spike }
}

/// The record in `block`, read with the rain gauge at `previous_raw`.
///
/// Wind and gust speeds are 12-bit counts: the wind speed takes the low nibble
/// of byte 11 as the high bits above byte 9, the gust speed takes the high
/// nibble of byte 11 as the high bits above byte 10.
pub open spec fn decode(block: Seq<u8>, previous_raw: u16, max_jump_tenths: i64) -> Reading {
    Reading {
        indoor_humidity: block[1],
        outdoor_humidity: block[4],
        indoor_temperature: temperature_at(block, 2),
        outdoor_temperature: temperature_at(block, 5),
        abs_pressure_tenths: le_u16(block, 7),
        wind_raw: (block[9] + (block[11] % 16) * 256) as u16,
        gust_raw: (block[10] + (block[11] / 16) * 256) as u16,
        wind_direction_index: (if block[12] < 15 { block[12] } else { 15 }) as usize,
        rain: rain_step(previous_raw, le_u16(block, 13), max_jump_tenths),
    }
}

/// The rain gauge's memory between readings: the last total it reported.
pub struct RainGauge {
    previous_raw: u16,
}

impl View for RainGauge {
    type V = u16;

    closed spec fn view(&self) -> u16 {
        self.previous_raw
    }
}

impl RainGauge {
    /// A gauge that has not seen a reading yet.
    pub fn new() -> (g: Self)
        ensures
            g@ == 0,
    {
        RainGauge { previous_raw: 0 }
    }

    /// Takes a new total and reports it, unless it rose too far.
    pub fn record(&mut self, total_raw: u16, max_jump_tenths: i64) -> (step: RainStep)
        ensures
            step == rain_step(old(self)@, total_raw, max_jump_tenths),
            final(self)@ == step.total_raw,
    {
        let reference = if self.previous_raw == 0 { total_raw } else { self.previous_raw };
        let spike = 3 * (total_raw as i64 - reference as i64) > max_jump_tenths;
        let kept = if spike { reference } else { total_raw };
        self.previous_raw = kept;
        RainStep { total_raw: kept, reference_raw: reference, spike }
    }
}

/// The rain gauge never reports a rise beyond the allowed jump: a rise within
/// the limit is kept as read, and a larger one is discarded so that the total
/// stays at its reference.
pub proof fn rain_rise_within_limit(previous_raw: u16, total_raw: u16, max_jump_tenths: i64)
    ensures
        !rain_step(previous_raw, total_raw, max_jump_tenths).spike ==> 3 * (rain_step(
            previous_raw,
            total_raw,
            max_jump_tenths,
        ).total_raw - rain_step(previous_raw, total_raw, max_jump_tenths).reference_raw)
            <= max_jump_tenths,
        rain_step(previous_raw, total_raw, max_jump_tenths).spike ==> rain_step(
            previous_raw,
            total_raw,
            max_jump_tenths,
        ).total_raw == rain_step(previous_raw, total_raw, max_jump_tenths).reference_raw,
        previous_raw != 0 ==> rain_step(previous_raw, total_raw, max_jump_tenths).reference_raw
            == previous_raw,
        previous_raw != 0 && 3 * (total_raw - previous_raw) <= max_jump_tenths ==> rain_step(
            previous_raw,
            total_raw,
            max_jump_tenths,
        ) == (RainStep { total_raw, reference_raw: previous_raw, spike: false }),
        previous_raw != 0 && 3 * (total_raw - previous_raw) > max_jump_tenths ==> rain_step(
            previous_raw,
            total_raw,
            max_jump_tenths,
        ) == (RainStep { total_raw: previous_raw, reference_raw: previous_raw, spike: true }),
{
}

/// The first non-zero total the gauge sees is its own reference, so it is
/// never discarded when the allowed jump is not negative.
pub proof fn first_total_is_kept(total_raw: u16, max_jump_tenths: i64)
    requires
        max_jump_tenths >= 0,
    ensures
        rain_step(0, total_raw, max_jump_tenths) == (RainStep {
            total_raw,
            reference_raw: total_raw,
            spike: false,
        }),
{
}

/// The position of the current record is the little-endian number in the
/// last two bytes of the fixed block, over the whole 16-bit range.
pub proof fn record_position_little_endian(fixed: Seq<u8>)
    requires
        fixed.len() == BLOCK_LEN,
    ensures
        le_u16(fixed, 30) as int == fixed[30] as int + 256 * fixed[31] as int,
{
}

/// Every field of a decoded record sits at its place in the block: the
/// humidities in bytes 1 and 4; each temperature as tenths in the low byte and
/// the seven low bits of the high byte, whose top bit is the sign; pressure
/// and rain total as little-endian numbers in bytes 7-8 and 13-14; wind and
/// gust as 12-bit counts above bytes 9 and 10 with the low and high nibble of
/// byte 11; the compass point in byte 12, held to the last point. The rain
/// total is reported as read unless it was discarded as a spike, and a first
/// reading with a non-negative limit is always reported as read.
pub proof fn record_fields_at_their_places(block: Seq<u8>, previous_raw: u16, max_jump_tenths: i64)
    requires
        block.len() == BLOCK_LEN,
    ensures
        decode(block, previous_raw, max_jump_tenths).indoor_humidity == block[1],
        decode(block, previous_raw, max_jump_tenths).outdoor_humidity == block[4],
        decode(block, previous_raw, max_jump_tenths).indoor_temperature.tenths as int == block[2] as int
            + 256 * (block[3] as int % 128),
        decode(block, previous_raw, max_jump_tenths).indoor_temperature.below_zero == (block[3] >= 128),
        decode(block, previous_raw, max_jump_tenths).outdoor_temperature.tenths as int == block[5] as int
            + 256 * (block[6] as int % 128),
        decode(block, previous_raw, max_jump_tenths).outdoor_temperature.below_zero == (block[6] >= 128),
        decode(block, previous_raw, max_jump_tenths).abs_pressure_tenths as int == block[7] as int + 256
            * block[8] as int,
        decode(block, previous_raw, max_jump_tenths).wind_raw as int == block[9] as int + 256 * (
        block[11] as int % 16),
        decode(block, previous_raw, max_jump_tenths).gust_raw as int == block[10] as int + 256 * (
        block[11] as int / 16),
        block[12] < 16 ==> decode(block, previous_raw, max_jump_tenths).wind_direction_index
            == block[12] as usize,
        block[12] >= 16 ==> decode(block, previous_raw, max_jump_tenths).wind_direction_index == 15,
        !decode(block, previous_raw, max_jump_tenths).rain.spike ==> decode(
            block,
            previous_raw,
            max_jump_tenths,
        ).rain.total_raw as int == block[13] as int + 256 * block[14] as int,
        previous_raw == 0 && max_jump_tenths >= 0 ==> {
            &&& !decode(block, previous_raw, max_jump_tenths).rain.spike
            &&& decode(block, previous_raw, max_jump_tenths).rain.total_raw as int == block[13] as int
                + 256 * block[14] as int
        },
{
}

fn temperature_from(block: &[u8; 32], i: usize) -> (t: Temperature)
    requires
        i + 1 < 32,
    ensures
        t == temperature_at(block@, i as int),
{
    let high = block[i + 1];
    Temperature { tenths: (high % 128) as u16 * 256 + block[i] as u16, below_zero: high >= 128 }
}

/// Decodes the current-weather record in `block` and passes its rain total
/// through `gauge`.
pub fn decode_reading(block: &[u8; 32], gauge: &mut RainGauge, max_jump_tenths: i64) -> (r: Reading)
    ensures
        r == decode(block@, old(gauge)@, max_jump_tenths),
        final(gauge)@ == r.rain.total_raw,
{
    let extra = block[11];
    let wind = block[9] as u16 + (extra % 16) as u16 * 256;
    let gust = block[10] as u16 + (extra / 16) as u16 * 256;
    let direction = if block[12] < 15 { block[12] } else { 15 };
    let total = block[13] as u16 + 256 * block[14] as u16;
    let rain = gauge.record(total, max_jump_tenths);
    Reading {
        indoor_humidity: block[1],
        outdoor_humidity: block[4],
        indoor_temperature: temperature_from(block, 2),
        outdoor_temperature: temperature_from(block, 5),
        abs_pressure_tenths: block[7] as u16 + 256 * block[8] as u16,
        wind_raw: wind,
        gust_raw: gust,
        wind_direction_index: direction as usize,
        rain,
    }
}

/// How the search for the station among the attached USB devices ended.
#[derive(Clone, Copy, Debug, PartialEq, Eq)]
pub enum DeviceSearch {
    /// The device at this position carries the station's ids.
    Found(usize),
    /// The descriptor of the device at this position could not be read.
    DescriptorUnreadable(usize),
    /// Every descriptor was read and none carries the station's ids.
    Missing,
}

/// The search stops at a device whose descriptor is unreadable or matches.
pub open spec fn stops_search(ids: Option<(u16, u16)>, vendor_id: u16, product_id: u16) -> bool {
    ids is None || ids == Some((vendor_id, product_id))
}

/// Walks the devices in order, each given by its (vendor, product) ids or by
/// `None` when its descriptor could not be read, and stops at the first that
/// matches or cannot be read.
pub fn find_weather_device(descriptors: &Vec<Option<(u16, u16)>>, vendor_id: u16, product_id: u16) -> (res: DeviceSearch)
    ensures
        match res {
            DeviceSearch::Found(i) => {
                &&& i < descriptors@.len()
                &&& descriptors@[i as int] == Some((vendor_id, product_id))
                &&& forall|j: int| 0 <= j < i ==> !stops_search(#[trigger] descriptors@[j], vendor_id, product_id)
            },
            DeviceSearch::DescriptorUnreadable(i) => {
                &&& i < descriptors@.len()
                &&& descriptors@[i as int] is None
                &&& forall|j: int| 0 <= j < i ==> !stops_search(#[trigger] descriptors@[j], vendor_id, product_id)
            },
            DeviceSearch::Missing => forall|j: int|
                0 <= j < descriptors@.len() ==> !stops_search(#[trigger] descriptors@[j], vendor_id, product_id),
        },
{
    let n = descriptors.len();
    let mut i: usize = 0;
    while i < n
        invariant
            n == descriptors@.len(),
            i <= n,
            forall|j: int| 0 <= j < i ==> !stops_search(#[trigger] descriptors@[j], vendor_id, product_id),
        decreases n - i,
    {
        match descriptors[i] {
            None => {
                return DeviceSearch::DescriptorUnreadable(i);
            },
            Some((v, p)) => {
                if v == vendor_id && p == product_id {
                    return DeviceSearch::Found(i);
                }
            },
        }
        i = i + 1;
    }
    DeviceSearch::Missing
}

} // verus!
