//! The report layouts of the first controller generation.

use vstd::prelude::*;

use crate::controller::proto::{Address, Channel, Get, ProtocolError, Put, Report};
use crate::controller::Feedback;
use crate::ratio::Ratio;

verus! {

/// Id of the streamed input report.
pub const REPORT_GET_INPUT: u8 = 0x01;

/// Id of the report that sets light and rumble.
pub const REPORT_SET_LED: u8 = 0x06;

/// Id of the feature report that holds the two addresses.
pub const REPORT_GET_BT_ADDR: u8 = 0x04;

/// Id of the feature report that holds one chunk of factory calibration.
pub const REPORT_GET_CALIBRATION: u8 = 0x10;

/// The unsigned 16-bit number whose low byte comes first.
pub open spec fn le16(lo: u8, hi: u8) -> u16 {
    (lo as int + 256 * (hi as int)) as u16
}

/// The 12-bit number that starts on a byte: the byte holds its low eight
/// bits, the high half of the next byte its upper four.
pub open spec fn packed12_aligned(first: u8, second: u8) -> u16 {
    (first as int + 256 * (second as int / 16)) as u16
}

/// The 12-bit number that starts in the middle of a byte: the low half of
/// that byte and the high half of the next are its low eight bits, the low
/// half of the next byte its upper four.
pub open spec fn packed12_shifted(first: u8, second: u8) -> u16 {
    (16 * (first as int % 16) + second as int / 16 + 256 * (second as int % 16)) as u16
}

/// The 28-bit bitmap in front of the sequence counter: three whole bytes,
/// low byte first, and the high half of the fourth on top.
pub open spec fn packed28(b0: u8, b1: u8, b2: u8, b3: u8) -> u32 {
    (b0 as int + 256 * (b1 as int) + 65536 * (b2 as int) + 16777216 * (b3 as int / 16)) as u32
}

/// The same layouts in terms of bits: each number is made of the bits of
/// its bytes, shifted into place.
pub proof fn lemma_layout_bits(b0: u8, b1: u8, b2: u8, b3: u8)
    ensures
        le16(b0, b1) == (b0 as u16) | (b1 as u16) << 8,
        packed12_aligned(b0, b1) == (b0 as u16) | ((b1 as u16) >> 4) << 8,
        packed12_shifted(b0, b1) == ((b0 as u16) & 0x0F) << 4 | (b1 as u16) >> 4 | ((b1 as u16)
            & 0x0F) << 8,
        packed28(b0, b1, b2, b3) == (b0 as u32) | (b1 as u32) << 8 | (b2 as u32) << 16 | ((
        b3 as u32) >> 4) << 24,
{
    assert((b0 as u16) + 256 * (b1 as u16) == (b0 as u16) | (b1 as u16) << 8) by (bit_vector);
    assert((b0 as u16) + 256 * ((b1 as u16) / 16) == (b0 as u16) | ((b1 as u16) >> 4) << 8)
        by (bit_vector);
    assert(16 * ((b0 as u16) % 16) + (b1 as u16) / 16 + 256 * ((b1 as u16) % 16) == ((b0 as u16)
        & 0x0F) << 4 | (b1 as u16) >> 4 | ((b1 as u16) & 0x0F) << 8) by (bit_vector);
    assert((b0 as u32) + 256 * (b1 as u32) + 65536 * (b2 as u32) + 16777216 * ((b3 as u32) / 16)
        == (b0 as u32) | (b1 as u32) << 8 | (b2 as u32) << 16 | ((b3 as u32) >> 4) << 24)
        by (bit_vector);
}

fn read_le16(lo: u8, hi: u8) -> (v: u16)
    ensures
        v == le16(lo, hi),
{
    lo as u16 + 256 * (hi as u16)
}

fn read_packed12_aligned(first: u8, second: u8) -> (v: u16)
    ensures
        v == packed12_aligned(first, second),
        v < 4096,
{
    first as u16 + 256 * ((second / 16) as u16)
}

fn read_packed12_shifted(first: u8, second: u8) -> (v: u16)
    ensures
        v == packed12_shifted(first, second),
        v < 4096,
{
    16 * ((first % 16) as u16) + (second / 16) as u16 + 256 * ((second % 16) as u16)
}

fn read_packed28(b0: u8, b1: u8, b2: u8, b3: u8) -> (v: u32)
    ensures
        v == packed28(b0, b1, b2, b3),
        v < 0x1000_0000,
{
    b0 as u32 + 256 * (b1 as u32) + 65536 * (b2 as u32) + 16777216 * ((b3 / 16) as u32)
}

/// Three raw axis readings.
#[derive(Debug, Clone, Copy, PartialEq, Eq, Structural)]
pub struct Vector {
    pub x: u16,
    pub y: u16,
    pub z: u16,
}

impl Vector {
    /// The reading that stands for zero: half of the 16-bit range.
    pub const ZERO_LEVEL: i64 = 0x8000;

    /// A raw reading as a fraction of half the range, from -1 up to just
    /// under 1: `v / 32768 - 1`.
    pub open spec fn normalized(v: u16) -> Ratio {
        Ratio { num: (v as int - 0x8000) as i64, den: 0x8000 }
    }

    /// The vector that six payload bytes hold from `at` on, each axis with
    /// its low byte first.
    pub open spec fn unpacked(payload: Seq<u8>, at: int) -> Vector {
        Vector {
            x: le16(payload[at], payload[at + 1]),
            y: le16(payload[at + 2], payload[at + 3]),
            z: le16(payload[at + 4], payload[at + 5]),
        }
    }

    /// A raw reading as a fraction of half the range.
    pub fn normalize(v: u16) -> (r: Ratio)
        ensures
            r == Self::normalized(v),
    {
        Ratio::new(v as i64 - Self::ZERO_LEVEL, Self::ZERO_LEVEL)
    }

    /// The first axis, normalized.
    pub fn x(&self) -> (r: Ratio)
        ensures
            r == Self::normalized(self.x),
    {
        Self::normalize(self.x)
    }

    /// The second axis, normalized.
    pub fn y(&self) -> (r: Ratio)
        ensures
            r == Self::normalized(self.y),
    {
        Self::normalize(self.y)
    }

    /// The third axis, normalized.
    pub fn z(&self) -> (r: Ratio)
        ensures
            r == Self::normalized(self.z),
    {
        Self::normalize(self.z)
    }

    /// Reads a vector out of its six bytes.
    pub fn unpack(data: &[u8; 6]) -> (v: Vector)
        ensures
            v == Self::unpacked(data@, 0),
    {
        Self::read(data.as_slice(), 0)
    }

    /// Reads the vector that starts at byte `at` of a payload.
    pub(crate) fn read(data: &[u8], at: usize) -> (v: Vector)
        requires
            at + 6 <= data@.len(),
        ensures
            v == Self::unpacked(data@, at as int),
    {
        Vector {
            x: read_le16(data[at], data[at + 1]),
            y: read_le16(data[at + 2], data[at + 3]),
            z: read_le16(data[at + 4], data[at + 5]),
        }
    }
}

/// The streamed report with the sensor readings and the buttons.
#[derive(Debug, Clone, Copy, PartialEq, Eq)]
pub struct GetInput {
    /// The 28-bit button bitmap.
    pub buttons: u32,
    /// The 4-bit counter that the wand advances with every report.
    pub seq: u8,
    pub trigger_1: u8,
    pub trigger_2: u8,
    pub reserved: [u8; 4],
    pub time_high: u8,
    pub battery: u8,
    pub accel_1: Vector,
    pub accel_2: Vector,
    pub gyro_1: Vector,
    pub gyro_2: Vector,
    /// 12-bit temperature reading.
    pub temp: u16,
    pub magnet_x: u16,
    pub magnet_y: u16,
    pub magnet_z: u16,
    pub time_low: u8,
    pub extdata: [u8; 5],
}

impl View for GetInput {
    type V = GetInput;

    open spec fn view(&self) -> GetInput {
        *self
    }
}

impl Report for GetInput {
    open spec fn id() -> u8 {
        REPORT_GET_INPUT
    }

    open spec fn size() -> nat {
        48
    }

    fn len() -> (n: usize) {
        48
    }

    fn report_id() -> (id: u8) {
        REPORT_GET_INPUT
    }
}

impl Get for GetInput {
    open spec fn getter() -> Channel {
        Channel::Primary
    }

    open spec fn unpacked(payload: Seq<u8>) -> GetInput {
        GetInput {
            buttons: packed28(payload[0], payload[1], payload[2], payload[3]),
            seq: (payload[3] % 16) as u8,
            trigger_1: payload[4],
            trigger_2: payload[5],
            reserved: [payload[6], payload[7], payload[8], payload[9]],
            time_high: payload[10],
            battery: payload[11],
            accel_1: Vector::unpacked(payload, 12),
            accel_2: Vector::unpacked(payload, 18),
            gyro_1: Vector::unpacked(payload, 24),
            gyro_2: Vector::unpacked(payload, 30),
            temp: packed12_aligned(payload[36], payload[37]),
            magnet_x: packed12_shifted(payload[37], payload[38]),
            magnet_y: packed12_aligned(payload[39], payload[40]),
            magnet_z: packed12_shifted(payload[40], payload[41]),
            time_low: payload[42],
            extdata: [payload[43], payload[44], payload[45], payload[46], payload[47]],
        }
    }

    fn channel() -> (c: Channel) {
        Channel::Primary
    }

    fn parse(data: &[u8]) -> (r: Result<Self, ProtocolError>) {
        if data.len() != 48 {
            return Err(ProtocolError::Length { expected: 48, found: data.len() });
        }
        Ok(
            GetInput {
                buttons: read_packed28(data[0], data[1], data[2], data[3]),
                seq: data[3] % 16,
                trigger_1: data[4],
                trigger_2: data[5],
                reserved: [data[6], data[7], data[8], data[9]],
                time_high: data[10],
                battery: data[11],
                accel_1: Vector::read(data, 12),
                accel_2: Vector::read(data, 18),
                gyro_1: Vector::read(data, 24),
                gyro_2: Vector::read(data, 30),
                temp: read_packed12_aligned(data[36], data[37]),
                magnet_x: read_packed12_shifted(data[37], data[38]),
                magnet_y: read_packed12_aligned(data[39], data[40]),
                magnet_z: read_packed12_shifted(data[40], data[41]),
                time_low: data[42],
                extdata: [data[43], data[44], data[45], data[46], data[47]],
            },
        )
    }
}

/// The report that sets the light and the rumble motor.
#[derive(Debug, Clone, Copy, PartialEq, Eq, Structural)]
pub struct SetLED {
    pub r: u8,
    pub g: u8,
    pub b: u8,
    pub rumble: u8,
}

impl View for SetLED {
    type V = SetLED;

    open spec fn view(&self) -> SetLED {
        *self
    }
}

impl Report for SetLED {
    open spec fn id() -> u8 {
        REPORT_SET_LED
    }

    open spec fn size() -> nat {
        8
    }

    fn len() -> (n: usize) {
        8
    }

    fn report_id() -> (id: u8) {
        REPORT_SET_LED
    }
}

impl Put for SetLED {
    open spec fn setter() -> Channel {
        Channel::Primary
    }

    open spec fn packed(report: SetLED) -> Seq<u8> {
        seq![0u8, report.r, report.g, report.b, 0u8, report.rumble, 0u8, 0u8]
    }

    fn channel() -> (c: Channel) {
        Channel::Primary
    }

    fn pack(&self) -> (payload: Vec<u8>) {
        let payload = vec![0u8, self.r, self.g, self.b, 0u8, self.rumble, 0u8, 0u8];
        assert(payload@ =~= Self::packed(*self));
        payload
    }
}

impl SetLED {
    /// The report that asks for a feedback.
    pub open spec fn of(feedback: Feedback) -> SetLED {
        SetLED {
            r: feedback.rgb.0,
            g: feedback.rgb.1,
            b: feedback.rgb.2,
            rumble: feedback.rumble,
        }
    }

    /// The report that asks for a feedback.
    pub fn from(feedback: &Feedback) -> (report: Self)
        ensures
            report == Self::of(*feedback),
    {
        Self { r: feedback.rgb.0, g: feedback.rgb.1, b: feedback.rgb.2, rumble: feedback.rumble }
    }
}

/// The two addresses that a wand knows: its own and that of its host.
#[derive(Debug, Clone, Copy, PartialEq, Eq)]
pub struct GetAddress {
    pub controller: Address,
    pub host: Address,
}

impl View for GetAddress {
    type V = (Seq<u8>, Seq<u8>);

    open spec fn view(&self) -> (Seq<u8>, Seq<u8>) {
        (self.controller@, self.host@)
    }
}

impl Report for GetAddress {
    open spec fn id() -> u8 {
        REPORT_GET_BT_ADDR
    }

    open spec fn size() -> nat {
        12
    }

    fn len() -> (n: usize) {
        12
    }

    fn report_id() -> (id: u8) {
        REPORT_GET_BT_ADDR
    }
}

impl Get for GetAddress {
    open spec fn getter() -> Channel {
        Channel::Feature
    }

    open spec fn unpacked(payload: Seq<u8>) -> (Seq<u8>, Seq<u8>) {
        (payload.subrange(0, 6), payload.subrange(6, 12))
    }

    fn channel() -> (c: Channel) {
        Channel::Feature
    }

    fn parse(data: &[u8]) -> (r: Result<Self, ProtocolError>) {
        if data.len() != 12 {
            return Err(ProtocolError::Length { expected: 12, found: data.len() });
        }
        let controller = Address::new([data[0], data[1], data[2], data[3], data[4], data[5]]);
        let host = Address::new([data[6], data[7], data[8], data[9], data[10], data[11]]);
        assert(controller@ =~= data@.subrange(0, 6));
        assert(host@ =~= data@.subrange(6, 12));
        Ok(GetAddress { controller, host })
    }
}

/// One of the three chunks in which a wand hands out its factory
/// calibration.
#[derive(Debug, Clone, Copy, PartialEq, Eq)]
pub struct GetCalibration {
    /// The tag that says which third of the block this is.
    pub index: u8,
    pub data: [u8; 47],
}

/// What one calibration chunk holds.
pub struct Chunk {
    pub index: u8,
    pub data: Seq<u8>,
}

impl View for GetCalibration {
    type V = Chunk;

    open spec fn view(&self) -> Chunk {
        Chunk { index: self.index, data: self.data@ }
    }
}

impl Report for GetCalibration {
    open spec fn id() -> u8 {
        REPORT_GET_CALIBRATION
    }

    open spec fn size() -> nat {
        48
    }

    fn len() -> (n: usize) {
        48
    }

    fn report_id() -> (id: u8) {
        REPORT_GET_CALIBRATION
    }
}

impl Get for GetCalibration {
    open spec fn getter() -> Channel {
        Channel::Feature
    }

    open spec fn unpacked(payload: Seq<u8>) -> Chunk {
        Chunk { index: payload[0], data: payload.subrange(1, 48) }
    }

    fn channel() -> (c: Channel) {
        Channel::Feature
    }

    fn parse(data: &[u8]) -> (r: Result<Self, ProtocolError>) {
        if data.len() != 48 {
            return Err(ProtocolError::Length { expected: 48, found: data.len() });
        }
        let mut chunk = [0u8; 47];
        let mut i: usize = 0;
        while i < 47
            invariant
                i <= 47,
                data@.len() == 48,
                forall|j: int| 0 <= j < i ==> chunk@[j] == data@[1 + j],
            decreases 47 - i,
        {
            chunk[i] = data[1 + i];
            i += 1;
        }
        assert(chunk@ =~= data@.subrange(1, 48));
        Ok(GetCalibration { index: data[0], data: chunk })
    }
}

/// The three chunks do not hold all three tags.
#[derive(Debug, Clone, Copy, PartialEq, Eq, Structural)]
pub struct InsufficientData;

impl GetCalibration {
    /// Tag of the first third of the calibration block.
    pub const INDEX_FIRST: u8 = 0x00;

    /// Tag of the second third of the calibration block.
    pub const INDEX_SECOND: u8 = 0x01;

    /// Tag of the last third of the calibration block.
    pub const INDEX_LAST: u8 = 0x82;

    /// The first of three chunks that carries a tag, if one does.
    pub open spec fn find(a: Chunk, b: Chunk, c: Chunk, index: u8) -> Option<Chunk> {
        if a.index == index {
            Some(a)
        } else if b.index == index {
            Some(b)
        } else if c.index == index {
            Some(c)
        } else {
            None
        }
    }

    /// The 141-byte block that three chunks make up: the data of the chunk
    /// tagged 0x00, then of the one tagged 0x01, then of the one tagged 0x82,
    /// in whatever order the chunks come. There is none if a tag is missing.
    pub open spec fn stitched(a: Chunk, b: Chunk, c: Chunk) -> Option<Seq<u8>> {
        match (
            Self::find(a, b, c, 0x00),
            Self::find(a, b, c, 0x01),
            Self::find(a, b, c, 0x82),
        ) {
            (Some(first), Some(second), Some(last)) => Some(first.data + second.data + last.data),
            _ => None,
        }
    }

    /// Whether one of three chunks carries a tag.
    pub open spec fn tagged(a: Chunk, b: Chunk, c: Chunk, index: u8) -> bool {
        a.index == index || b.index == index || c.index == index
    }

    fn locate(data: &[&Self; 3], index: u8) -> (r: Option<usize>)
        ensures
            match r {
                Some(i) => i < 3 && Self::find(data[0]@, data[1]@, data[2]@, index) == Some(
                    data[i as int]@,
                ),
                None => Self::find(data[0]@, data[1]@, data[2]@, index) is None,
            },
    {
        if data[0].index == index {
            Some(0)
        } else if data[1].index == index {
            Some(1)
        } else if data[2].index == index {
            Some(2)
        } else {
            None
        }
    }

    /// Puts the three chunks of a calibration block in order and reads the
    /// block. The chunks may come in any order; all three tags must occur.
    pub fn stitch(data: [&Self; 3]) -> (r: Result<GetCalibrationInner, InsufficientData>)
        ensures
            match Self::stitched(data[0]@, data[1]@, data[2]@) {
                Some(block) => r == Ok::<GetCalibrationInner, InsufficientData>(
                    GetCalibrationInner::unpacked(block),
                ),
                None => r is Err,
            },
    {
        let first = Self::locate(&data, Self::INDEX_FIRST);
        let second = Self::locate(&data, Self::INDEX_SECOND);
        let last = Self::locate(&data, Self::INDEX_LAST);
        match (first, second, last) {
            (Some(i), Some(j), Some(k)) => {
                let mut block = [0u8; 141];
                let mut n: usize = 0;
                while n < 47
                    invariant
                        n <= 47,
                        i < 3,
                        j < 3,
                        k < 3,
                        forall|m: int| 0 <= m < n ==> block@[m] == data[i as int].data@[m],
                        forall|m: int| 0 <= m < n ==> block@[47 + m] == data[j as int].data@[m],
                        forall|m: int| 0 <= m < n ==> block@[94 + m] == data[k as int].data@[m],
                    decreases 47 - n,
                {
                    block[n] = data[i].data[n];
                    block[47 + n] = data[j].data[n];
                    block[94 + n] = data[k].data[n];
                    n += 1;
                }
                assert(block@ =~= data[i as int].data@ + data[j as int].data@ + data[k as int].data@);
                Ok(GetCalibrationInner::unpack(&block))
            },
            _ => Err(InsufficientData),
        }
    }

    /// Three chunks make up the same block in whatever order they come.
    pub proof fn lemma_stitch_any_order(a: Chunk, b: Chunk, c: Chunk)
        ensures
            Self::stitched(a, c, b) == Self::stitched(a, b, c),
            Self::stitched(b, a, c) == Self::stitched(a, b, c),
            Self::stitched(b, c, a) == Self::stitched(a, b, c),
            Self::stitched(c, a, b) == Self::stitched(a, b, c),
            Self::stitched(c, b, a) == Self::stitched(a, b, c),
    {
    }

    /// Three chunks make up a block exactly if each of the three tags occurs
    /// among them.
    pub proof fn lemma_stitch_needs_all_tags(a: Chunk, b: Chunk, c: Chunk)
        ensures
            Self::stitched(a, b, c) is Some <==> Self::tagged(a, b, c, 0x00) && Self::tagged(
                a,
                b,
                c,
                0x01,
            ) && Self::tagged(a, b, c, 0x82),
    {
    }
}

/// The factory calibration of a wand, as its 141-byte block holds it.
#[derive(Debug, Clone, Copy, PartialEq, Eq)]
pub struct GetCalibrationInner {
    /// Accelerometer readings taken at six orientations of the wand.
    pub accel: [Vector; 6],
    /// Gyroscope readings taken at rest.
    pub gyro_bias: Vector,
    /// Gyroscope readings taken while turning about the first axis.
    pub gyro_x: Vector,
    /// Gyroscope readings taken while turning about the second axis.
    pub gyro_y: Vector,
    /// Gyroscope readings taken while turning about the third axis.
    pub gyro_z: Vector,
}

impl GetCalibrationInner {
    /// What a block of 141 bytes holds.
    pub open spec fn unpacked(block: Seq<u8>) -> GetCalibrationInner {
        GetCalibrationInner {
            accel: [
                Vector::unpacked(block, 2),
                Vector::unpacked(block, 8),
                Vector::unpacked(block, 14),
                Vector::unpacked(block, 20),
                Vector::unpacked(block, 26),
                Vector::unpacked(block, 32),
            ],
            gyro_bias: Vector::unpacked(block, 40),
            gyro_x: Vector::unpacked(block, 68),
            gyro_y: Vector::unpacked(block, 76),
            gyro_z: Vector::unpacked(block, 84),
        }
    }

    /// Reads the calibration out of its block.
    pub fn unpack(block: &[u8; 141]) -> (r: Self)
        ensures
            r == Self::unpacked(block@),
    {
        let data = block.as_slice();
        GetCalibrationInner {
            accel: [
                Vector::read(data, 2),
                Vector::read(data, 8),
                Vector::read(data, 14),
                Vector::read(data, 20),
                Vector::read(data, 26),
                Vector::read(data, 32),
            ],
            gyro_bias: Vector::read(data, 40),
            gyro_x: Vector::read(data, 68),
            gyro_y: Vector::read(data, 76),
            gyro_z: Vector::read(data, 84),
        }
    }
}

} // verus!
