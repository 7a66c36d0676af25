//! Framing of the fixed-size reports that a wand exchanges with its host.

use vstd::prelude::*;
use vstd::string::StringExecFns;

pub mod zcm1;

verus! {

/// Why a buffer was not accepted as a report.
#[derive(Debug, Clone, Copy, PartialEq, Eq, Structural)]
pub enum ProtocolError {
    /// The buffer is shorter or longer than the report's layout.
    Length { expected: usize, found: usize },
    /// The leading byte is not the id of the expected report.
    ReportId { wanted: u8, got: u8 },
}

/// The two ways in which a report travels.
#[derive(Debug, Clone, Copy, PartialEq, Eq, Structural)]
pub enum Channel {
    /// Plain reads and writes of the device stream.
    Primary,
    /// Control transfers that get or set a feature report.
    Feature,
}

/// A report with a fixed layout and a one-byte id.
pub trait Report: Sized + View {
    /// The id byte that goes in front of the payload.
    spec fn id() -> u8;

    /// Number of payload bytes, the id byte not counted.
    spec fn size() -> nat;

    /// The id byte that goes in front of the payload.
    fn report_id() -> (id: u8)
        ensures
            id == Self::id(),
    ;

    /// Number of payload bytes, the id byte not counted.
    fn len() -> (n: usize)
        ensures
            n == Self::size(),
            n < usize::MAX,
    ;
}

/// A report that the wand sends.
pub trait Get: Report {
    /// The channel on which the report is asked for.
    spec fn getter() -> Channel;

    /// What a payload of [`Report::size`] bytes holds.
    spec fn unpacked(payload: Seq<u8>) -> Self::V;

    /// The channel on which the report is asked for.
    fn channel() -> (c: Channel)
        ensures
            c == Self::getter(),
    ;

    /// Reads the report out of its payload. A payload of any other length
    /// than the layout's is refused.
    fn parse(data: &[u8]) -> (r: Result<Self, ProtocolError>)
        ensures
            data@.len() == Self::size() ==> r is Ok && r->Ok_0@ == Self::unpacked(data@),
            data@.len() != Self::size() ==> r == Err::<Self, ProtocolError>(
                ProtocolError::Length { expected: Self::size() as usize, found: data@.len() as usize },
            ),
    ;
}

/// A report that the host sends.
pub trait Put: Report {
    /// The channel on which the report is sent.
    spec fn setter() -> Channel;

    /// The payload that holds a report: [`Report::size`] bytes.
    spec fn packed(report: Self::V) -> Seq<u8>;

    /// The channel on which the report is sent.
    fn channel() -> (c: Channel)
        ensures
            c == Self::setter(),
    ;

    /// Writes the report into its payload.
    fn pack(&self) -> (payload: Vec<u8>)
        ensures
            payload@ == Self::packed(self@),
            payload@.len() == Self::size(),
    ;
}

} // verus!

verus! {

/// The six bytes that identify one physical wand.
#[derive(Debug, Clone, Copy, PartialEq, Eq)]
pub struct Address {
    data: [u8; 6],
}

impl View for Address {
    type V = Seq<u8>;

    closed spec fn view(&self) -> Seq<u8> {
        self.data@
    }
}

impl Address {
    /// The address made of six bytes, in the order of the wire.
    pub fn new(data: [u8; 6]) -> (a: Address)
        ensures
            a@ == data@,
    {
        Address { data }
    }

    /// The six bytes, in the order of the wire.
    pub fn as_ref(&self) -> (bytes: &[u8; 6])
        ensures
            bytes@ == self@,
    {
        &self.data
    }

    /// The upper-case hexadecimal digit of a number below 16.
    pub open spec fn hex_char(nibble: u8) -> char {
        if nibble < 10 {
            (0x30 + nibble) as char
        } else {
            (0x41 + nibble - 10) as char
        }
    }

    /// A byte as two upper-case hexadecimal digits.
    pub open spec fn hex(byte: u8) -> Seq<char> {
        seq![Self::hex_char(byte / 16), Self::hex_char(byte % 16)]
    }

    /// The address as text: the six bytes in hexadecimal, the last byte of
    /// the wire first, with colons between.
    pub open spec fn rendered(data: Seq<u8>) -> Seq<char> {
        Self::hex(data[5]) + seq![':'] + Self::hex(data[4]) + seq![':'] + Self::hex(data[3])
            + seq![':'] + Self::hex(data[2]) + seq![':'] + Self::hex(data[1]) + seq![':']
            + Self::hex(data[0])
    }

    fn digit(nibble: u8) -> (text: &'static str)
        requires
            nibble < 16,
        ensures
            text@ == seq![Self::hex_char(nibble)],
    {
        match nibble {
            0 => {
                proof {
                    reveal_strlit("0");
                }
                "0"
            },
            1 => {
                proof {
                    reveal_strlit("1");
                }
                "1"
            },
            2 => {
                proof {
                    reveal_strlit("2");
                }
                "2"
            },
            3 => {
                proof {
                    reveal_strlit("3");
                }
                "3"
            },
            4 => {
                proof {
                    reveal_strlit("4");
                }
                "4"
            },
            5 => {
                proof {
                    reveal_strlit("5");
                }
                "5"
            },
            6 => {
                proof {
                    reveal_strlit("6");
                }
                "6"
            },
            7 => {
                proof {
                    reveal_strlit("7");
                }
                "7"
            },
            8 => {
                proof {
                    reveal_strlit("8");
                }
                "8"
            },
            9 => {
                proof {
                    reveal_strlit("9");
                }
                "9"
            },
            10 => {
                proof {
                    reveal_strlit("A");
                }
                "A"
            },
            11 => {
                proof {
                    reveal_strlit("B");
                }
                "B"
            },
            12 => {
                proof {
                    reveal_strlit("C");
                }
                "C"
            },
            13 => {
                proof {
                    reveal_strlit("D");
                }
                "D"
            },
            14 => {
                proof {
                    reveal_strlit("E");
                }
                "E"
            },
            _ => {
                proof {
                    reveal_strlit("F");
                }
                "F"
            },
        }
    }

    fn push_hex(text: &mut String, byte: u8)
        ensures
            final(text)@ == old(text)@ + Self::hex(byte),
    {
        text.append(Self::digit(byte / 16));
        text.append(Self::digit(byte % 16));
        assert(text@ =~= old(text)@ + Self::hex(byte));
    }

    fn push_colon(text: &mut String)
        ensures
            final(text)@ == old(text)@ + seq![':'],
    {
        proof {
            reveal_strlit(":");
        }
        text.append(":");
        assert(text@ =~= old(text)@ + seq![':']);
    }

    /// The address as text, such as `00:06:F7:12:34:56`.
    pub fn as_string(&self) -> (text: String)
        ensures
            text@ == Self::rendered(self@),
    {
        let mut text = String::new();
        Self::push_hex(&mut text, self.data[5]);
        Self::push_colon(&mut text);
        Self::push_hex(&mut text, self.data[4]);
        Self::push_colon(&mut text);
        Self::push_hex(&mut text, self.data[3]);
        Self::push_colon(&mut text);
        Self::push_hex(&mut text, self.data[2]);
        Self::push_colon(&mut text);
        Self::push_hex(&mut text, self.data[1]);
        Self::push_colon(&mut text);
        Self::push_hex(&mut text, self.data[0]);
        assert(text@ =~= Self::rendered(self@));
        text
    }

    /// An address always has six bytes.
    pub proof fn lemma_len(self)
        ensures
            self@.len() == 6,
    {
    }
}

} // verus!

verus! {

/// What a framed buffer holds: the report behind the id byte, or the reason
/// why the buffer is none. The length is looked at first, then the id.
pub open spec fn decoded<R: Get>(buffer: Seq<u8>) -> Result<R::V, ProtocolError> {
    if buffer.len() != R::size() + 1 {
        Err(ProtocolError::Length { expected: (R::size() + 1) as usize, found: buffer.len() as usize })
    } else if buffer[0] != R::id() {
        Err(ProtocolError::ReportId { wanted: R::id(), got: buffer[0] })
    } else {
        Ok(R::unpacked(buffer.subrange(1, buffer.len() as int)))
    }
}

/// The framed buffer of a report: its id byte, then its payload.
pub open spec fn framed<R: Put>(report: R::V) -> Seq<u8> {
    seq![R::id()] + R::packed(report)
}

/// The buffer of a report with nothing in it yet.
pub open spec fn blank<R: Report>() -> Seq<u8> {
    Seq::new(R::size() + 1, |i: int| 0u8)
}

fn zeroed(len: usize) -> (buffer: Vec<u8>)
    ensures
        buffer@ == Seq::new(len as nat, |i: int| 0u8),
{
    let mut buffer: Vec<u8> = Vec::new();
    let mut i: usize = 0;
    while i < len
        invariant
            i <= len,
            buffer@.len() == i,
            forall|j: int| 0 <= j < i ==> buffer@[j] == 0u8,
        decreases len - i,
    {
        buffer.push(0u8);
        i += 1;
    }
    assert(buffer@ =~= Seq::new(len as nat, |i: int| 0u8));
    buffer
}

fn unframe<R: Get>(buffer: &[u8]) -> (r: Result<R, ProtocolError>)
    ensures
        match decoded::<R>(buffer@) {
            Ok(report) => r is Ok && r->Ok_0@ == report,
            Err(e) => r == Err::<R, ProtocolError>(e),
        },
{
    let len = R::len();
    if buffer.len() != len + 1 {
        return Err(ProtocolError::Length { expected: len + 1, found: buffer.len() });
    }
    if buffer[0] != R::report_id() {
        return Err(ProtocolError::ReportId { wanted: R::report_id(), got: buffer[0] });
    }
    let (_, payload) = buffer.split_at(1);
    assert(payload@ =~= buffer@.subrange(1, buffer@.len() as int));
    R::parse(payload)
}

fn frame<R: Put>(report: &R) -> (buffer: Vec<u8>)
    ensures
        buffer@ == framed::<R>(report@),
{
    let mut buffer: Vec<u8> = Vec::new();
    buffer.push(R::report_id());
    let mut payload = report.pack();
    buffer.append(&mut payload);
    assert(buffer@ =~= framed::<R>(report@));
    buffer
}

/// A way to ask for a report. Whoever talks to the device hands it the
/// buffer of [`Getter::request`], lets the device fill it, and gives the
/// filled buffer to [`Getter::get`].
pub trait Getter<R: Get> {
    /// The buffer that is handed to the device.
    spec fn requested() -> Seq<u8>;

    /// The buffer that is handed to the device: as long as the id byte and
    /// the payload together.
    fn request() -> (buffer: Vec<u8>)
        ensures
            buffer@ == Self::requested(),
            buffer@.len() == R::size() + 1,
    ;

    /// Reads the report out of the buffer that the device filled.
    fn get(buffer: &[u8]) -> (r: Result<R, ProtocolError>)
        ensures
            match decoded::<R>(buffer@) {
                Ok(report) => r is Ok && r->Ok_0@ == report,
                Err(e) => r == Err::<R, ProtocolError>(e),
            },
    ;
}

/// A way to send a report.
pub trait Setter<R: Put> {
    /// The buffer that is handed to the device: the id byte, then the
    /// payload.
    fn set(report: &R) -> (buffer: Vec<u8>)
        ensures
            buffer@ == framed::<R>(report@),
    ;
}

/// The streamed channel: reports are read from and written to the device
/// as they are, the id byte first.
pub struct Primary {}

impl<R: Get> Getter<R> for Primary {
    open spec fn requested() -> Seq<u8> {
        blank::<R>()
    }

    fn request() -> (buffer: Vec<u8>) {
        zeroed(R::len() + 1)
    }

    fn get(buffer: &[u8]) -> (r: Result<R, ProtocolError>) {
        unframe::<R>(buffer)
    }
}

impl<R: Put> Setter<R> for Primary {
    fn set(report: &R) -> (buffer: Vec<u8>) {
        frame::<R>(report)
    }
}

/// The feature channel: reports are fetched and stored by control
/// transfers, which carry a buffer that starts with the id byte.
pub struct Feature {}

impl Feature {
    /// The letter that stands for this kind of device in a control request.
    pub const IOC_HIDRAW_MAGIC: char = 'H';

    /// Number of the control request that stores a feature report.
    pub const IOC_HIDRAW_SEND_FEATURE_REPORT: u8 = 0x06;

    /// Number of the control request that fetches a feature report.
    pub const IOC_HIDRAW_GET_FEATURE_REPORT: u8 = 0x07;
}

impl<R: Get> Getter<R> for Feature {
    open spec fn requested() -> Seq<u8> {
        blank::<R>().update(0, R::id())
    }

    fn request() -> (buffer: Vec<u8>) {
        let mut buffer = zeroed(R::len() + 1);
        buffer[0] = R::report_id();
        buffer
    }

    fn get(buffer: &[u8]) -> (r: Result<R, ProtocolError>) {
        unframe::<R>(buffer)
    }
}

impl<R: Put> Setter<R> for Feature {
    fn set(report: &R) -> (buffer: Vec<u8>) {
        frame::<R>(report)
    }
}

} // verus!
