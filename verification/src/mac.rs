//! IEEE 802.15.4 MAC frames, as the driver sends and receives them
//!
//! Frames are encoded and decoded by the `ieee802154` crate. This module holds
//! plain-value models of the parts of a frame that the driver and its users
//! work with, and the calls into that crate.

use vstd::prelude::*;
use ieee802154::mac::{
    Address as IeeeAddress, ExtendedAddress, FooterMode, Frame as IeeeFrame, FrameContent,
    FrameSerDesContext, FrameType, FrameVersion, Header as IeeeHeader, PanId as IeeePanId,
    ShortAddress as IeeeShortAddress,
};
use byte::BytesExt;
use byte::Error as ByteError;

verus! {

/// An error that occured while decoding a frame (the `byte` crate's error type)
#[verifier::external_type_specification]
#[verifier::external_body]
pub struct ExByteError(ByteError);

/// An IEEE 802.15.4 PAN ID
#[derive(Clone, Copy, Debug, PartialEq, Eq, Structural)]
pub struct PanId(pub u16);

/// An IEEE 802.15.4 short address
#[derive(Clone, Copy, Debug, PartialEq, Eq, Structural)]
pub struct ShortAddress(pub u16);

/// An address that contains a PAN ID and a device address
#[derive(Clone, Copy, Debug, PartialEq, Eq, Structural)]
pub enum Address {
    /// Short (16-bit) address and PAN ID (16-bit)
    Short(u16, u16),
    /// Extended (64-bit) address and PAN ID (16-bit)
    Extended(u16, u64),
}

impl Address {
    /// The short broadcast address: PAN ID and address `0xffff`
    pub open spec fn spec_broadcast_short() -> Address {
        Address::Short(0xffff, 0xffff)
    }

    /// Creates an instance of `Address` that represents the short broadcast
    /// address
    pub fn broadcast_short() -> (r: Address)
        ensures
            r == Address::spec_broadcast_short(),
    {
        Address::Short(0xffff, 0xffff)
    }

    /// The PAN ID of this address
    pub open spec fn spec_pan_id(self) -> u16 {
        match self {
            Address::Short(p, _) => p,
            Address::Extended(p, _) => p,
        }
    }

    /// Get the PAN ID for this address
    pub fn pan_id(&self) -> (r: u16)
        ensures
            r == self.spec_pan_id(),
    {
        match self {
            Address::Short(p, _) => *p,
            Address::Extended(p, _) => *p,
        }
    }
}

/// The header of a received MAC frame
#[derive(Clone, Copy, Debug, PartialEq, Eq, Structural)]
pub struct Header {
    /// Frame type, as encoded in the frame control field (data frames are
    /// `0b001`)
    pub frame_type: u8,
    /// Frame pending flag
    pub frame_pending: bool,
    /// Acknowledgement request flag
    pub ack_request: bool,
    /// PAN ID compression flag
    pub pan_id_compress: bool,
    /// Sequence number
    pub seq: u8,
    /// Destination address
    pub destination: Option<Address>,
    /// Source address
    pub source: Option<Address>,
}

/// A received MAC frame
#[derive(Debug)]
pub struct Frame {
    /// Header
    pub header: Header,
    /// Payload
    pub payload: Vec<u8>,
}

/// The length of the encoding of an address, with its PAN ID
pub open spec fn address_len(a: Option<Address>) -> nat {
    match a {
        None => 0,
        Some(Address::Short(_, _)) => 4,
        Some(Address::Extended(_, _)) => 10,
    }
}

/// The length of the encoding of a data frame without footer: frame control
/// (2 bytes), sequence number (1 byte), both addresses and the payload
pub open spec fn data_frame_len(destination: Option<Address>, source: Option<Address>, payload_len: nat) -> nat {
    3 + address_len(destination) + address_len(source) + payload_len
}

/// The header of a data frame from `source` to `destination` with sequence
/// number `seq`, without frame pending, acknowledgement request and PAN ID
/// compression
pub open spec fn data_frame_header(destination: Option<Address>, source: Option<Address>, seq: u8) -> Header {
    Header {
        frame_type: 1,
        frame_pending: false,
        ack_request: false,
        pan_id_compress: false,
        seq,
        destination,
        source,
    }
}

/// The two bytes of `v`, least significant first
pub open spec fn le16(v: u16) -> Seq<u8> {
    seq![(v % 256) as u8, (v / 256) as u8]
}

/// The eight bytes of `v`, least significant first
pub open spec fn le64(v: u64) -> Seq<u8> {
    Seq::new(8, |i: int| ((v >> (8 * i) as u64) & 0xff) as u8)
}

/// The addressing mode of an address in the frame control field: 0 where
/// there is none, 2 for a short and 3 for an extended address
pub open spec fn address_mode(a: Option<Address>) -> u16 {
    match a {
        None => 0,
        Some(Address::Short(_, _)) => 2,
        Some(Address::Extended(_, _)) => 3,
    }
}

/// The encoding of an address: its PAN ID, then the address itself, each
/// least significant byte first
pub open spec fn address_bytes(a: Option<Address>) -> Seq<u8> {
    match a {
        None => Seq::empty(),
        Some(Address::Short(pan_id, addr)) => le16(pan_id) + le16(addr),
        Some(Address::Extended(pan_id, addr)) => le16(pan_id) + le64(addr),
    }
}

/// The bytes of an IEEE 802.15.4 (2006) data frame without security, frame
/// pending, acknowledgement request and PAN ID compression, and without
/// footer: the frame control field (frame type 1, frame version 1 and the
/// two addressing modes), the sequence number, the destination, the source
/// and the payload.
pub open spec fn data_frame_bytes(
    destination: Option<Address>,
    source: Option<Address>,
    seq: u8,
    payload: Seq<u8>,
) -> Seq<u8> {
    let frame_control = 0x1001u16 | (address_mode(destination) << 10u16) | (address_mode(source) << 14u16);
    le16(frame_control) + seq![seq] + address_bytes(destination) + address_bytes(source) + payload
}

/// The frame that the `ieee802154` crate decodes from `bytes` (read without
/// footer), as header and payload; `None` where it reports an error.
pub uninterp spec fn decoded_frame(bytes: Seq<u8>) -> Option<(Header, Seq<u8>)>;

/// Encodes a data frame with `ieee802154`'s `Frame::try_write` (without
/// footer, no security) into a buffer of 127 bytes, the size of the DW1000's
/// transmit buffer.
///
/// Trusted: the result is the encoding that `data_frame_bytes` states, as
/// `Header::try_write` (frame control, sequence number, then each address
/// with its PAN ID, little endian) and `Frame::try_write` (header, nothing
/// for a data frame's content, the payload, no footer) show; it is written
/// in full exactly when it fits into the buffer, and its length is the header
/// length plus the payload length. Decoding the
/// encoding gives back the header and the payload, as `Header::try_read` and
/// `Frame::try_read` show: they read the fields in the order in which they
/// were written.
#[verifier::external_body]
pub(crate) fn encode_data_frame(destination: Option<Address>, source: Option<Address>, seq: u8, payload: &[u8]) -> (r:
    Option<Vec<u8>>)
    ensures
        r is Some <==> data_frame_len(destination, source, payload@.len()) <= 127,
        r matches Some(v) ==> v@ == data_frame_bytes(destination, source, seq, payload@) && v@.len()
            == data_frame_len(destination, source, payload@.len()),
        r matches Some(v) ==> decoded_frame(v@) == Some((data_frame_header(destination, source, seq), payload@)),
{
    let conv = |a| match a {
        Address::Short(p, s) => IeeeAddress::Short(IeeePanId(p), IeeeShortAddress(s)),
        Address::Extended(p, e) => IeeeAddress::Extended(IeeePanId(p), ExtendedAddress(e)),
    };
    let mut buf = [0u8; 127];
    let mut len: usize = 0;
    let frame = IeeeFrame {
        header: IeeeHeader { frame_type: FrameType::Data, frame_pending: false, ack_request: false,
            pan_id_compress: false, seq_no_suppress: false, ie_present: false, seq,
            version: FrameVersion::Ieee802154_2006, destination: destination.map(conv),
            source: source.map(conv), auxiliary_security_header: None },
        content: FrameContent::Data, payload, footer: [0; 2] };
    buf.write_with(&mut len, frame, &mut FrameSerDesContext::no_security(FooterMode::None)).ok()?;
    Some(buf[..len].to_vec())
}

/// Decodes a frame with `ieee802154`'s `Frame::try_read` (without footer).
///
/// Trusted: the result is the named decoding of `bytes`; the error is the
/// `byte` crate's error that the decoder reports.
#[verifier::external_body]
pub(crate) fn decode_frame(bytes: &[u8]) -> (r: Result<Frame, ByteError>)
    ensures
        r is Ok <==> decoded_frame(bytes@) is Some,
        r matches Ok(f) ==> decoded_frame(bytes@) == Some((f.header, f.payload@)),
{
    let f: IeeeFrame = bytes.read_with(&mut 0, FooterMode::None)?;
    let conv = |a| match a {
        IeeeAddress::Short(p, s) => Address::Short(p.0, s.0),
        IeeeAddress::Extended(p, e) => Address::Extended(p.0, e.0),
    };
    let h = f.header;
    let header = Header { frame_type: h.frame_type as u8, frame_pending: h.frame_pending,
        ack_request: h.ack_request, pan_id_compress: h.pan_id_compress, seq: h.seq,
        destination: h.destination.map(conv), source: h.source.map(conv) };
    Ok(Frame { header, payload: f.payload.to_vec() })
}

} // verus!
