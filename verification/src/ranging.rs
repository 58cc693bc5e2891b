//! Implementation of double-sided two-way ranging
//!
//! This ranging technique is described in the DW1000 user manual, section 12.3.
//! This module uses three messages for a range measurement, as described in
//! section 12.3.2.
//!
//! This module defines the messages required, and provides code for framing,
//! sending and decoding them. It is left to the user to tie all that together,
//! by sending out the messages at the right time.
//!
//! There can be some variation in the use of this module, depending on the use
//! case. Here is one example of how this module can be used:
//! 1. Nodes are divided into anchors and tags. Tags are those nodes whose
//!    position interests us. Anchors are placed in known locations to enable
//!    range measurements.
//! 2. Anchors regularly send out pings ([`Ping`]).
//! 3. Tags listen for these pings, and reply with a ranging request
//!    ([`Request`]) for each ping they receive.
//! 4. When an anchor receives a ranging request, it replies with a ranging
//!    response ([`Response`]).
//! 5. Once the tag receives the ranging response, it has all the information it
//!    needs to compute the distance.
//!
//! In this scheme, anchors initiate the exchange, which results in the tag
//! having the distance information. Possible variations include the tag
//! initiating the request and the anchor calculating the distance, or a
//! peer-to-peer scheme without dedicated tags and anchors.
//!
//! A message on the air is its type's prelude, followed by the message data in
//! the layout of the `ssmarshal` format (each time stamp and duration as 8
//! little-endian bytes). This module frames and checks those bytes; turning
//! the data into values is left to the user.
//!
//! Please note that using the code in this module without further processing of
//! the result will yield imprecise measurements. To improve the precision of
//! those measurements, a range bias needs to be applied. Please refer to the
//! user manual for more information.

pub mod correction;
mod search;
mod tables;

pub use tables::{
    calibration_table, lemma_calibration_table_valid, ranges_follow_from, spec_calibration_table,
    table_valid, CalibrationPoint,
};

use vstd::prelude::*;
use crate::configs::{PulseRepetitionFrequency, RxConfig, TxConfig, UwbChannel};
use crate::hl;
use crate::hl::{added, is_read, keeps, send_writes, DW1000, Error, Ready, SendTime, Sending};
use crate::ll::{all_ok, calls_after, lemma_all_ok_split, ChipSelect, RegRead, Spi};
use crate::ll::bits::field_value;
use crate::ll::registers::{SYS_TIME, TX_ANTD};
use crate::mac::Address;
use crate::time::{spec_duration_since, time_modulus, Duration, Instant, TIME_MAX};

verus! {

/// The transmission delay
///
/// This defines the transmission delay as 10 ms. This should be enough to
/// finish the rest of the preparation and send the message, even if we're
/// running with unoptimized code.
pub const TX_DELAY: u32 = 10_000_000;

/// The speed of light, in m/s or nm/ns
pub const SPEED_OF_LIGHT: u64 = 299_792_458;

/// Sent before a message's data to identify the message
#[derive(Debug)]
pub struct Prelude(pub Vec<u8>);

/// Implemented by all ranging messages
pub trait Message: Sized {
    /// The prelude that identifies the message
    spec fn spec_prelude() -> Seq<u8>;

    /// The length of the whole message, including prelude and data
    spec fn spec_len() -> nat;

    /// A prelude that identifies the message
    fn prelude() -> (r: Prelude)
        ensures
            r.0@ == Self::spec_prelude(),
    ;

    /// The length of the whole message, including prelude and data
    fn len() -> (r: usize)
        ensures
            r == Self::spec_len(),
            Self::spec_prelude().len() <= r <= 48,
    ;

    /// Decodes a received message of this type
    ///
    /// The user is responsible for receiving a message using
    /// [`DW1000::receive`]. Once a message has been received, this method can
    /// be used to check what type of message this is.
    ///
    /// Returns `Ok(None)`, if the message is not of the right type. Otherwise,
    /// returns `Ok(Some(message))` with the message data that follows the
    /// prelude, if the message has the right length.
    fn decode<SPI: Spi, CS: ChipSelect>(message: &hl::Message) -> (r: Result<
        Option<RxMessage<Vec<u8>>>,
        Error<SPI, CS>,
    >)
        ensures
            ({
                let payload = message.frame.payload@;
                let prelude = Self::spec_prelude();
                if !(prelude.len() <= payload.len() && payload.take(prelude.len() as int) == prelude) {
                    // Not a message of this type
                    r == Ok::<Option<RxMessage<Vec<u8>>>, Error<SPI, CS>>(None)
                } else if payload.len() != Self::spec_len() {
                    // Invalid message
                    r == Err::<Option<RxMessage<Vec<u8>>>, Error<SPI, CS>>(
                        Error::BufferTooSmall { required_len: Self::spec_len() as usize },
                    )
                } else {
                    r matches Ok(Some(m)) && m.rx_time == message.rx_time && m.source
                        == message.frame.header.source && m.payload@ == payload.skip(
                        prelude.len() as int,
                    )
                }
            }),
    {
        let prelude = Self::prelude().0;
        let payload = &message.frame.payload;
        if payload.len() < prelude.len() || !starts_with(payload, &prelude) {
            // Not a message of this type
            return Ok(None);
        }
        let len = Self::len();
        if payload.len() != len {
            // Invalid message
            return Err(Error::BufferTooSmall { required_len: len });
        }
        // The message passes muster.
        let mut data: Vec<u8> = Vec::new();
        let mut i: usize = prelude.len();
        while i < payload.len()
            invariant
                prelude@.len() <= i <= payload@.len(),
                data@ == payload@.subrange(prelude@.len() as int, i as int),
            decreases payload@.len() - i,
        {
            data.push(payload[i]);
            proof {
                assert(data@ =~= payload@.subrange(prelude@.len() as int, i + 1));
            }
            i = i + 1;
        }
        Ok(Some(RxMessage { rx_time: message.rx_time, source: message.frame.header.source, payload: data }))
    }
}

/// `payload` starts with the prelude of message type `T`: where it does not,
/// `Message::decode` reports that the message is not of this type.
pub open spec fn is_message_of<T: Message>(payload: Seq<u8>) -> bool {
    let prelude = T::spec_prelude();
    prelude.len() <= payload.len() && payload.take(prelude.len() as int) == prelude
}

/// The message data that follows the prelude of message type `T`: what
/// `Message::decode` gives back of a message of the right length
pub open spec fn message_data<T: Message>(payload: Seq<u8>) -> Seq<u8> {
    payload.skip(T::spec_prelude().len() as int)
}

/// A message framed as `TxMessage::send` frames it decodes to the data it
/// was framed from: it is of its type, has its type's length, and its data
/// is what followed the prelude.
pub proof fn lemma_framed_message_decodes<T: Message>(data: Seq<u8>)
    requires
        T::spec_prelude().len() + data.len() == T::spec_len(),
    ensures
        is_message_of::<T>(T::spec_prelude() + data),
        (T::spec_prelude() + data).len() == T::spec_len(),
        message_data::<T>(T::spec_prelude() + data) == data,
{
    let prelude = T::spec_prelude();
    assert((prelude + data).take(prelude.len() as int) =~= prelude);
    assert((prelude + data).skip(prelude.len() as int) =~= data);
}

/// The three message types can be told apart: a message framed as one type
/// is of no other type.
pub proof fn lemma_message_types_distinct(data: Seq<u8>)
    ensures
        !is_message_of::<Request>(ping_prelude() + data),
        !is_message_of::<Response>(ping_prelude() + data),
        !is_message_of::<Ping>(request_prelude() + data),
        !is_message_of::<Response>(request_prelude() + data),
        !is_message_of::<Ping>(response_prelude() + data),
        !is_message_of::<Request>(response_prelude() + data),
{
    // The preludes differ at byte 8 ("P" against "R") or at byte 10 ("Q"
    // against "S").
    assert((ping_prelude() + data)[8] != request_prelude()[8]);
    assert((ping_prelude() + data)[8] != response_prelude()[8]);
    assert((request_prelude() + data)[8] != ping_prelude()[8]);
    assert((request_prelude() + data)[10] != response_prelude()[10]);
    assert((response_prelude() + data)[8] != ping_prelude()[8]);
    assert((response_prelude() + data)[10] != request_prelude()[10]);
    if is_message_of::<Request>(ping_prelude() + data) {
        assert((ping_prelude() + data).take(15)[8] == request_prelude()[8]);
    }
    if is_message_of::<Response>(ping_prelude() + data) {
        assert((ping_prelude() + data).take(16)[8] == response_prelude()[8]);
    }
    if is_message_of::<Ping>(request_prelude() + data) {
        assert((request_prelude() + data).take(12)[8] == ping_prelude()[8]);
    }
    if is_message_of::<Response>(request_prelude() + data) {
        assert((request_prelude() + data).take(16)[10] == response_prelude()[10]);
    }
    if is_message_of::<Ping>(response_prelude() + data) {
        assert((response_prelude() + data).take(12)[8] == ping_prelude()[8]);
    }
    if is_message_of::<Request>(response_prelude() + data) {
        assert((response_prelude() + data).take(15)[10] == request_prelude()[10]);
    }
}

/// Whether `bytes` starts with `prefix`
fn starts_with(bytes: &Vec<u8>, prefix: &Vec<u8>) -> (r: bool)
    requires
        prefix@.len() <= bytes@.len(),
    ensures
        r == (bytes@.take(prefix@.len() as int) == prefix@),
{
    let mut i: usize = 0;
    while i < prefix.len()
        invariant
            prefix@.len() <= bytes@.len(),
            i <= prefix@.len(),
            bytes@.take(i as int) == prefix@.take(i as int),
        decreases prefix@.len() - i,
    {
        if bytes[i] != prefix[i] {
            assert(bytes@.take(prefix@.len() as int)[i as int] != prefix@[i as int]);
            return false;
        }
        proof {
            assert(bytes@.take(i + 1) =~= prefix@.take(i + 1));
        }
        i = i + 1;
    }
    proof {
        assert(prefix@.take(prefix@.len() as int) =~= prefix@);
    }
    true
}

/// An incoming ranging message
///
/// Contains the received payload, as well as some metadata that's required to
/// create a reply to the message.
#[derive(Debug)]
pub struct RxMessage<T> {
    /// The time the message was received
    pub rx_time: Instant,
    /// The source of the message
    pub source: Option<Address>,
    /// The message data
    pub payload: T,
}

/// An outgoing ranging message
///
/// Contains the payload to be sent, as well as some metadata.
#[derive(Debug)]
pub struct TxMessage<T> {
    /// The recipient of the message
    ///
    /// This is an IEEE 802.15.4 MAC address. This could be a broadcast address,
    /// for messages that are sent to all other nodes in range.
    pub recipient: Option<Address>,
    /// The time this message is going to be sent
    ///
    /// When creating this struct, this is going to be an instant in the near
    /// future. When sending the message, the sending is delayed to make sure it
    /// it sent at exactly this instant.
    pub tx_time: Instant,
    /// The actual message payload
    pub payload: T,
}

impl<T: Message> TxMessage<T> {
    /// Send this message via the DW1000
    ///
    /// `data` is the serialized message payload. This method puts the prelude
    /// in front of it and uses [`DW1000::send`] internally to send it, delayed
    /// to the message's transmission time.
    pub fn send<SPI: Spi, CS: ChipSelect>(&self, dw1000: DW1000<SPI, CS, Ready>, txconfig: TxConfig, data: &[u8]) -> (r:
        Result<DW1000<SPI, CS, Sending>, Error<SPI, CS>>)
        requires
            T::spec_prelude().len() + data@.len() == T::spec_len(),
        ensures
            r matches Ok(sending) ==> {
                &&& keeps(dw1000.writes(), sending.writes())
                &&& send_writes(
                    added(dw1000.writes(), sending.writes()),
                    T::spec_prelude() + data@,
                    self.recipient,
                    SendTime::Delayed(self.tx_time),
                    txconfig,
                    dw1000.seq(),
                )
                &&& sending.seq() == (dw1000.seq() + 1) % 256
            },
            r matches Err(e) ==> e is Spi || e is PollTimeout,
    {
        let mut buf = T::prelude().0;
        let mut i: usize = 0;
        let ghost prelude = buf@;
        while i < data.len()
            invariant
                prelude == T::spec_prelude(),
                i <= data@.len(),
                buf@ == prelude + data@.take(i as int),
            decreases data@.len() - i,
        {
            buf.push(data[i]);
            proof {
                assert(buf@ =~= prelude + data@.take(i + 1));
            }
            i = i + 1;
        }
        proof {
            assert(data@.take(data@.len() as int) =~= data@);
        }
        // The longest message has 48 bytes, so every message fits into a frame.
        let _len = T::len();
        dw1000.send(buf.as_slice(), self.recipient, SendTime::Delayed(self.tx_time), txconfig)
    }
}

/// Ranging ping message
///
/// This message is typically sent to initiate a range measurement transaction.
/// See [module documentation] for more info.
///
/// [module documentation]: index.html
#[derive(Debug)]
pub struct Ping {
    /// When the ping was sent, in local sender time
    pub ping_tx_time: Instant,
}

/// Ranging request message
///
/// This message is typically sent in response to a ranging ping, to request a
/// ranging response. See [module documentation] for more info.
///
/// [module documentation]: index.html
#[derive(Debug)]
pub struct Request {
    /// When the original ping was sent, in local time on the anchor
    pub ping_tx_time: Instant,
    /// The time between the ping being received and the reply being sent
    pub ping_reply_time: Duration,
    /// When the ranging request was sent, in local sender time
    pub request_tx_time: Instant,
}

/// Ranging response message
///
/// This message is typically sent in response to a ranging request, to wrap up
/// the range measurement transaction.. See [module documentation] for more
/// info.
///
/// [module documentation]: index.html
#[derive(Debug)]
pub struct Response {
    /// The time between the ping being received and the reply being sent
    pub ping_reply_time: Duration,
    /// The time between the ping being sent and the reply being received
    pub ping_round_trip_time: Duration,
    /// The time the ranging request was sent, in local sender time
    pub request_tx_time: Instant,
    /// The time between the request being received and a reply being sent
    pub request_reply_time: Duration,
}

/// "RANGING PING"
pub open spec fn ping_prelude() -> Seq<u8> {
    seq![82, 65, 78, 71, 73, 78, 71, 32, 80, 73, 78, 71]
}

/// "RANGING REQUEST"
pub open spec fn request_prelude() -> Seq<u8> {
    seq![82, 65, 78, 71, 73, 78, 71, 32, 82, 69, 81, 85, 69, 83, 84]
}

/// "RANGING RESPONSE"
pub open spec fn response_prelude() -> Seq<u8> {
    seq![82, 65, 78, 71, 73, 78, 71, 32, 82, 69, 83, 80, 79, 78, 83, 69]
}

impl Message for Ping {
    open spec fn spec_prelude() -> Seq<u8> {
        ping_prelude()
    }

    /// The prelude and one time stamp of 8 bytes
    open spec fn spec_len() -> nat {
        12 + 8
    }

    fn prelude() -> (r: Prelude) {
        let r = Prelude(vec![82, 65, 78, 71, 73, 78, 71, 32, 80, 73, 78, 71]);
        proof {
            assert(r.0@ =~= ping_prelude());
        }
        r
    }

    fn len() -> (r: usize) {
        12 + 8
    }
}

impl Message for Request {
    open spec fn spec_prelude() -> Seq<u8> {
        request_prelude()
    }

    /// The prelude and three time values of 8 bytes
    open spec fn spec_len() -> nat {
        15 + 24
    }

    fn prelude() -> (r: Prelude) {
        let r = Prelude(vec![82, 65, 78, 71, 73, 78, 71, 32, 82, 69, 81, 85, 69, 83, 84]);
        proof {
            assert(r.0@ =~= request_prelude());
        }
        r
    }

    fn len() -> (r: usize) {
        15 + 24
    }
}

impl Message for Response {
    open spec fn spec_prelude() -> Seq<u8> {
        response_prelude()
    }

    /// The prelude and four time values of 8 bytes
    open spec fn spec_len() -> nat {
        16 + 32
    }

    fn prelude() -> (r: Prelude) {
        let r = Prelude(vec![82, 65, 78, 71, 73, 78, 71, 32, 82, 69, 83, 80, 79, 78, 83, 69]);
        proof {
            assert(r.0@ =~= response_prelude());
        }
        r
    }

    fn len() -> (r: usize) {
        16 + 32
    }
}

/// `new` is `old` followed by a read of the system time and a read of the TX
/// antenna delay.
pub open spec fn tx_time_reads(old: Seq<RegRead>, new: Seq<RegRead>) -> bool {
    &&& new.len() == old.len() + 2
    &&& new.take(old.len() as int) == old
    &&& is_read::<SYS_TIME>(new[old.len() as int])
    &&& is_read::<TX_ANTD>(new[old.len() + 1 as int])
}

/// The transmission time that follows from the system time read second to
/// last in `reads`: `TX_DELAY` after it, on the wrapping 40-bit clock
pub open spec fn read_tx_time(reads: Seq<RegRead>) -> int {
    (field_value(reads[reads.len() - 2].data, 0, 40) + TX_DELAY * 64) % time_modulus()
}

/// The time at which the message leaves the antenna: the TX antenna delay read
/// last in `reads` after the transmission time
pub open spec fn read_antenna_time(reads: Seq<RegRead>) -> int {
    (read_tx_time(reads) + field_value(reads.last().data, 0, 16)) % time_modulus()
}

/// A new ranging message is scheduled 10 ms after the system time that was
/// read: 10,000,000 ns of 64 time units each, on the wrapping 40-bit clock.
pub proof fn lemma_tx_time_ten_ms_after_sys_time(reads: Seq<RegRead>)
    requires
        reads.len() >= 2,
    ensures
        read_tx_time(reads) == (field_value(reads[reads.len() - 2].data, 0, 40) + 640_000_000) % 0x100_0000_0000,
        field_value(reads[reads.len() - 2].data, 0, 40) + 640_000_000 < 0x100_0000_0000 ==> read_tx_time(reads)
            - field_value(reads[reads.len() - 2].data, 0, 40) == 640_000_000,
{
    let sys = field_value(reads[reads.len() - 2].data, 0, 40);
    if sys + 640_000_000 < 0x100_0000_0000 {
        vstd::arithmetic::div_mod::lemma_small_mod((sys + 640_000_000) as nat, 0x100_0000_0000);
    }
}

/// Reads the system time and the TX antenna delay, and returns the
/// transmission time (`TX_DELAY` after the system time) and the time at which
/// the message leaves the antenna (the TX antenna delay after that).
fn tx_times<SPI: Spi, CS: ChipSelect>(dw1000: &mut DW1000<SPI, CS, Ready>) -> (r: Result<
    (Instant, Instant),
    Error<SPI, CS>,
>)
    ensures
        final(dw1000).writes() == old(dw1000).writes(),
        final(dw1000).seq() == old(dw1000).seq(),
        r matches Ok((tx_time, antenna_time)) ==> spec_duration_since(antenna_time, tx_time) < 0x1_0000,
        r is Ok <==> all_ok(calls_after(old(dw1000).bus(), final(dw1000).bus())),
        r matches Ok((tx_time, antenna_time)) ==> {
            &&& tx_time_reads(old(dw1000).reads(), final(dw1000).reads())
            &&& tx_time@ == read_tx_time(final(dw1000).reads())
            &&& antenna_time@ == read_antenna_time(final(dw1000).reads())
        },
        r matches Err(e) ==> e is Spi,
{
    let ghost r0 = dw1000.reads();
    let ghost b0 = dw1000.bus();
    let now = dw1000.sys_time()?;
    let ghost r1 = dw1000.reads();
    let ghost b1 = dw1000.bus();
    let tx_time = now + Duration::from_nanos(TX_DELAY);
    let antenna_delay = match dw1000.get_tx_antenna_delay() {
        Ok(d) => d,
        Err(e) => {
            proof {
                lemma_all_ok_split(b0, b1, dw1000.bus());
            }
            return Err(e);
        },
    };
    let antenna_time = tx_time + antenna_delay;
    proof {
        use_type_invariant(tx_time);
        use_type_invariant(antenna_delay);
        crate::time::lemma_instant_fits(tx_time);
        crate::time::lemma_duration_fits(antenna_delay);
        crate::time::lemma_duration_since_add(tx_time, antenna_delay);
        lemma_all_ok_split(b0, b1, dw1000.bus());
        let rs = dw1000.reads();
        assert(rs.drop_last() == r1);
        assert(r1.drop_last() == r0);
        assert(rs[r0.len() as int] == r1.last());
        assert(rs.take(r0.len() as int) =~= r0) by {
            assert(rs.take(r0.len() as int) =~= r1.take(r0.len() as int));
        }
        assert(rs[rs.len() - 2] == r1.last());
    }
    Ok((tx_time, antenna_time))
}

impl Ping {
    /// Creates a new ping message
    ///
    /// Only creates the message, but doesn't yet send it. Sets the transmission
    /// time to 10 milliseconds in the future. Make sure to send the message
    /// within that time frame, or the distance measurement will be negatively
    /// affected.
    ///
    /// The ping's time is the transmission time plus the TX antenna delay.
    pub fn new<SPI: Spi, CS: ChipSelect>(dw1000: &mut DW1000<SPI, CS, Ready>) -> (r: Result<
        TxMessage<Self>,
        Error<SPI, CS>,
    >)
        ensures
            final(dw1000).writes() == old(dw1000).writes(),
            final(dw1000).seq() == old(dw1000).seq(),
            r matches Ok(m) ==> {
                &&& m.recipient == Some(Address::spec_broadcast_short())
                &&& spec_duration_since(m.payload.ping_tx_time, m.tx_time) < 0x1_0000
                &&& tx_time_reads(old(dw1000).reads(), final(dw1000).reads())
                &&& m.tx_time@ == read_tx_time(final(dw1000).reads())
                &&& m.payload.ping_tx_time@ == read_antenna_time(final(dw1000).reads())
            },
            r is Ok <==> all_ok(calls_after(old(dw1000).bus(), final(dw1000).bus())),
            r matches Err(e) ==> e is Spi,
    {
        let (tx_time, ping_tx_time) = tx_times(dw1000)?;
        Ok(TxMessage { recipient: Some(Address::broadcast_short()), tx_time, payload: Ping { ping_tx_time } })
    }
}

impl Request {
    /// Creates a new ranging request message
    ///
    /// Only creates the message, but doesn't yet send it. Sets the transmission
    /// time to 10 milliseconds in the future. Make sure to send the message
    /// within that time frame, or the distance measurement will be negatively
    /// affected.
    ///
    /// The request's time is the transmission time plus the TX antenna delay.
    pub fn new<SPI: Spi, CS: ChipSelect>(dw1000: &mut DW1000<SPI, CS, Ready>, ping: &RxMessage<Ping>) -> (r:
        Result<TxMessage<Self>, Error<SPI, CS>>)
        ensures
            final(dw1000).writes() == old(dw1000).writes(),
            final(dw1000).seq() == old(dw1000).seq(),
            r matches Ok(m) ==> {
                &&& m.recipient == ping.source
                &&& spec_duration_since(m.payload.request_tx_time, m.tx_time) < 0x1_0000
                &&& m.payload.ping_tx_time == ping.payload.ping_tx_time
                &&& m.payload.ping_reply_time@ == spec_duration_since(
                    m.payload.request_tx_time,
                    ping.rx_time,
                )
                &&& tx_time_reads(old(dw1000).reads(), final(dw1000).reads())
                &&& m.tx_time@ == read_tx_time(final(dw1000).reads())
                &&& m.payload.request_tx_time@ == read_antenna_time(final(dw1000).reads())
            },
            r is Ok <==> all_ok(calls_after(old(dw1000).bus(), final(dw1000).bus())),
            r matches Err(e) ==> e is Spi,
    {
        let (tx_time, request_tx_time) = tx_times(dw1000)?;
        let ping_reply_time = request_tx_time.duration_since(ping.rx_time);
        let payload = Request { ping_tx_time: ping.payload.ping_tx_time, ping_reply_time, request_tx_time };
        Ok(TxMessage { recipient: ping.source, tx_time, payload })
    }
}

impl Response {
    /// Creates a new ranging response message
    ///
    /// Only creates the message, but doesn't yet send it. Sets the transmission
    /// time to 10 milliseconds in the future. Make sure to send the message
    /// within that time frame, or the distance measurement will be negatively
    /// affected.
    ///
    /// The request reply time ends at the transmission time plus the TX
    /// antenna delay.
    pub fn new<SPI: Spi, CS: ChipSelect>(dw1000: &mut DW1000<SPI, CS, Ready>, request: &RxMessage<Request>) -> (r:
        Result<TxMessage<Self>, Error<SPI, CS>>)
        ensures
            final(dw1000).writes() == old(dw1000).writes(),
            final(dw1000).seq() == old(dw1000).seq(),
            r matches Ok(m) ==> {
                &&& m.recipient == request.source
                &&& (m.payload.request_reply_time@ - spec_duration_since(m.tx_time, request.rx_time))
                    % crate::time::time_modulus() < 0x1_0000
                &&& m.payload.ping_reply_time == request.payload.ping_reply_time
                &&& m.payload.ping_round_trip_time@ == spec_duration_since(
                    request.rx_time,
                    request.payload.ping_tx_time,
                )
                &&& m.payload.request_tx_time == request.payload.request_tx_time
                &&& tx_time_reads(old(dw1000).reads(), final(dw1000).reads())
                &&& m.tx_time@ == read_tx_time(final(dw1000).reads())
                &&& m.payload.request_reply_time@ == (read_antenna_time(final(dw1000).reads())
                    - request.rx_time@) % time_modulus()
            },
            r is Ok <==> all_ok(calls_after(old(dw1000).bus(), final(dw1000).bus())),
            r matches Err(e) ==> e is Spi,
    {
        let (tx_time, response_tx_time) = tx_times(dw1000)?;
        let ping_round_trip_time = request.rx_time.duration_since(request.payload.ping_tx_time);
        let request_reply_time = response_tx_time.duration_since(request.rx_time);
        proof {
            use_type_invariant(tx_time);
            use_type_invariant(response_tx_time);
            crate::time::lemma_instant_fits(tx_time);
            crate::time::lemma_instant_fits(response_tx_time);
            crate::time::lemma_duration_since_bounded(response_tx_time, tx_time);
            let m = crate::time::time_modulus();
            let d = spec_duration_since(response_tx_time, tx_time);
            let a = spec_duration_since(response_tx_time, request.rx_time);
            let b = spec_duration_since(tx_time, request.rx_time);
            assert((a - b) % m == d) by {
                vstd::arithmetic::div_mod::lemma_sub_mod_noop(
                    response_tx_time@ - request.rx_time@,
                    tx_time@ - request.rx_time@,
                    m,
                );
                vstd::arithmetic::div_mod::lemma_mod_twice(response_tx_time@ - tx_time@, m);
            }
        }
        let payload = Response {
            ping_reply_time: request.payload.ping_reply_time,
            ping_round_trip_time,
            request_tx_time: request.payload.request_tx_time,
            request_reply_time,
        };
        Ok(TxMessage { recipient: request.source, tx_time, payload })
    }
}

/// Returned from [`compute_distance_mm`] in case of an error
#[derive(Debug)]
pub enum ComputeDistanceError {
    /// Reply times are too large to be multiplied
    ReplyTimesTooLarge,
    /// Round-trip times are too large to be multiplied
    RoundTripTimesTooLarge,
    /// The sum computed as part of the algorithm is too large
    SumTooLarge,
    /// The time of flight is so large, the distance calculation would overflow
    TimeOfFlightTooLarge,
}

/// The time of flight, in DW1000 time units, from the reply times and
/// round-trip times of both exchanges (user manual, section 12.3.2)
pub open spec fn time_of_flight(ping_rt: int, ping_rtt: int, request_rt: int, request_rtt: int) -> int {
    (ping_rtt * request_rtt - ping_rt * request_rt) / (ping_rt + request_rt + ping_rtt + request_rtt)
}

/// For consistent timings, where each round trip is twice the time of flight
/// `t` plus the reply time at the other end, the time of flight that the
/// formula gives is `t`, whatever the two reply times are.
pub proof fn lemma_time_of_flight_consistent(t: int, ping_rt: int, request_rt: int)
    requires
        0 <= t,
        0 <= ping_rt,
        0 <= request_rt,
        0 < 2 * t + ping_rt + request_rt,
    ensures
        time_of_flight(ping_rt, 2 * t + ping_rt, request_rt, 2 * t + request_rt) == t,
{
    let a = ping_rt;
    let c = request_rt;
    let p = (2 * t + a) * (2 * t + c) - a * c;
    let s = a + c + (2 * t + a) + (2 * t + c);
    assert(p == s * t) by (nonlinear_arith)
        requires
            p == (2 * t + a) * (2 * t + c) - a * c,
            s == a + c + (2 * t + a) + (2 * t + c),
    ;
    assert(s > 0);
    vstd::arithmetic::div_mod::lemma_div_multiples_vanish(t, s);
}

/// For consistent timings with time of flight `t` (each round trip is `2 t`
/// plus the reply time at the other end), the distance before the range bias
/// correction is the distance that light travels in `t` time units of
/// 1/64 ns: 299792458 m/s times `t` / 64 ns, in mm, whatever the two reply
/// times are.
pub proof fn lemma_distance_of_consistent_timings(t: int, ping_rt: int, request_rt: int)
    requires
        0 <= t,
        0 <= ping_rt,
        0 <= request_rt,
        0 < 2 * t + ping_rt + request_rt,
        (2 * t + ping_rt) * (2 * t + request_rt) <= u64::MAX,
        ping_rt + request_rt + (2 * t + ping_rt) + (2 * t + request_rt) <= u64::MAX,
        299_792_458 * t <= u64::MAX,
    ensures
        spec_distance_mm(ping_rt, 2 * t + ping_rt, request_rt, 2 * t + request_rt) == Ok::<
            int,
            ComputeDistanceError,
        >(299_792_458 * t / 64 / 1_000_000),
{
    lemma_time_of_flight_consistent(t, ping_rt, request_rt);
    assert(ping_rt * request_rt <= (2 * t + ping_rt) * (2 * t + request_rt)) by (nonlinear_arith)
        requires
            0 <= t,
            0 <= ping_rt,
            0 <= request_rt,
    ;
}

/// The distance in mm before the range bias correction, or the step of the
/// computation that does not fit into 64 bits
pub open spec fn spec_distance_mm(ping_rt: int, ping_rtt: int, request_rt: int, request_rtt: int) -> Result<
    int,
    ComputeDistanceError,
> {
    let max = u64::MAX as int;
    if ping_rtt * request_rtt > max {
        Err(ComputeDistanceError::RoundTripTimesTooLarge)
    } else if ping_rt * request_rt > max {
        Err(ComputeDistanceError::ReplyTimesTooLarge)
    } else if ping_rt + request_rt > max || ping_rtt + request_rtt > max || ping_rt + request_rt + ping_rtt
        + request_rtt > max {
        Err(ComputeDistanceError::SumTooLarge)
    } else if SPEED_OF_LIGHT * time_of_flight(ping_rt, ping_rtt, request_rt, request_rtt) > max {
        Err(ComputeDistanceError::TimeOfFlightTooLarge)
    } else {
        // Each time unit is 1/64 ns.
        Ok(SPEED_OF_LIGHT * time_of_flight(ping_rt, ping_rtt, request_rt, request_rtt) / 64 / 1_000_000)
    }
}

/// The computation of the distance is defined: where the products and sums
/// fit into 64 bits, the reply times are no larger than the round-trip times,
/// and not all times are zero.
pub open spec fn distance_defined(ping_rt: int, ping_rtt: int, request_rt: int, request_rtt: int) -> bool {
    let max = u64::MAX as int;
    (ping_rtt * request_rtt <= max && ping_rt * request_rt <= max && ping_rt + request_rt <= max
        && ping_rtt + request_rtt <= max && ping_rt + request_rt + ping_rtt + request_rtt <= max) ==> (
    ping_rt * request_rt <= ping_rtt * request_rtt && ping_rt + request_rt + ping_rtt + request_rtt > 0)
}

/// A time of flight computed from time values below `2^40` is at most the
/// smaller round-trip time, when the round-trip product fits into 64 bits.
proof fn lemma_time_of_flight_bound(a: int, b: int, c: int, d: int)
    requires
        0 <= a <= TIME_MAX,
        0 <= b <= TIME_MAX,
        0 <= c <= TIME_MAX,
        0 <= d <= TIME_MAX,
        b * d <= u64::MAX,
        a * c <= b * d,
        a + b + c + d > 0,
    ensures
        0 <= time_of_flight(a, b, c, d) < 0x1_0000_0000,
{
    let p = b * d - a * c;
    let s = a + b + c + d;
    let t = p / s;
    assert(0 <= a * c) by (nonlinear_arith)
        requires
            0 <= a,
            0 <= c,
    ;
    assert(0 <= t && t * s <= p) by (nonlinear_arith)
        requires
            0 <= p,
            0 < s,
            t == p / s,
    ;
    // The smaller round-trip time is below 2^32, as the product fits into
    // 64 bits.
    let m = if b <= d {
        b
    } else {
        d
    };
    assert(m < 0x1_0000_0000) by (nonlinear_arith)
        requires
            0 <= m,
            m == b || m == d,
            m <= b,
            m <= d,
            b * d <= u64::MAX,
    {
        if m >= 0x1_0000_0000 {
            assert(m * m <= b * d);
            assert(m * m >= 0x1_0000_0000 * 0x1_0000_0000);
        }
    }
    // The time of flight is at most the smaller round-trip time: `t * s`
    // is at most `b * d`, and `s` is at least the larger one of `b` and `d`.
    let n = if b <= d {
        d
    } else {
        b
    };
    assert(t * n <= t * s) by (nonlinear_arith)
        requires
            0 <= t,
            0 <= n <= s,
    ;
    assert(m * n == b * d) by (nonlinear_arith)
        requires
            (m == b && n == d) || (m == d && n == b),
    ;
    assert(t <= m) by (nonlinear_arith)
        requires
            0 <= t,
            0 <= m <= n,
            0 < s,
            t * n <= t * s,
            t * s <= m * n,
    {
        if n == 0 {
            assert(t * s <= 0);
        }
    }
}

/// For time values below `2^40`, as the DW1000 measures them, computing the
/// distance fails only where one of the products does not fit into 64 bits:
/// the sums and the time of flight always fit.
pub proof fn lemma_distance_fails_only_on_products(a: int, b: int, c: int, d: int)
    requires
        0 <= a <= TIME_MAX,
        0 <= b <= TIME_MAX,
        0 <= c <= TIME_MAX,
        0 <= d <= TIME_MAX,
        distance_defined(a, b, c, d),
    ensures
        spec_distance_mm(a, b, c, d) is Err ==> (b * d > u64::MAX || a * c > u64::MAX),
{
    if b * d <= u64::MAX && a * c <= u64::MAX {
        lemma_time_of_flight_bound(a, b, c, d);
        let t = time_of_flight(a, b, c, d);
        assert(SPEED_OF_LIGHT * t <= u64::MAX) by (nonlinear_arith)
            requires
                0 <= t < 0x1_0000_0000,
        ;
    }
}

/// The range bias that applies to every distance, for the PRF and the
/// bandwidth of the channel
pub open spec fn base_bias_mm(prf: PulseRepetitionFrequency, narrow: bool) -> int {
    match (prf, narrow) {
        (PulseRepetitionFrequency::Mhz16, true) => 230,
        (PulseRepetitionFrequency::Mhz16, false) => 280,
        (PulseRepetitionFrequency::Mhz64, true) => 170,
        (PulseRepetitionFrequency::Mhz64, false) => 300,
    }
}

/// The calibration point `p` applies to a distance of `distance_mm`.
pub open spec fn point_contains(p: CalibrationPoint, distance_mm: int) -> bool {
    &&& p.lower_bound_cm * 10 <= distance_mm
    &&& (p.upper_bound_cm matches Some(u) ==> distance_mm <= u * 10)
}

/// `p` applies to a distance of `distance_mm`.
pub open spec fn contains_mm(p: CalibrationPoint, distance_mm: i64) -> bool {
    point_contains(p, distance_mm as int)
}

/// The lower bound of entry `i` of the table, in mm
pub open spec fn lower_mm_at(t: Seq<CalibrationPoint>, i: usize) -> int {
    t[i as int].lower_bound_cm * 10
}

/// Entry `i` of the table applies to `distance_mm`, and `r` is its
/// correction in mm.
pub open spec fn correction_at(t: Seq<CalibrationPoint>, i: usize, distance_mm: i64, r: i64) -> bool {
    &&& (i as int) < t.len()
    &&& point_contains(t[i as int], distance_mm as int)
    &&& r == t[i as int].value_cm * 10
}

/// In a valid table, each range ends where the next one starts, and only the
/// last range has no upper bound.
proof fn lemma_ranges_follow(t: Seq<CalibrationPoint>, i: nat, j: int)
    requires
        ranges_follow_from(t, i),
        i <= j < t.len(),
    ensures
        j + 1 < t.len() ==> t[j].upper_bound_cm == Some(t[j + 1].lower_bound_cm),
        j + 1 == t.len() ==> t[j].upper_bound_cm is None,
    decreases j - i,
{
    if i < j {
        lemma_ranges_follow(t, i + 1, j);
    }
}

/// In a valid table, range `j` ends where range `j + 1` starts, and only the
/// last range has no upper bound.
pub(crate) proof fn lemma_next_range(t: Seq<CalibrationPoint>, j: usize)
    requires
        table_valid(t),
        (j as int) < t.len(),
    ensures
        (j as int) + 1 < t.len() ==> t[j as int].upper_bound_cm == Some(t[j as int + 1].lower_bound_cm),
        (j as int) + 1 == t.len() ==> t[j as int].upper_bound_cm is None,
{
    lemma_ranges_follow(t, 0, j as int);
}

/// In a valid table, a later range starts at or after the end of an earlier
/// one, and its correction is at least as large.
proof fn lemma_ranges_ordered(t: Seq<CalibrationPoint>, i: nat, a: int, b: int)
    requires
        ranges_follow_from(t, i),
        i <= a < b < t.len(),
    ensures
        t[a].value_cm <= t[b].value_cm,
        t[a].upper_bound_cm matches Some(u) && u <= t[b].lower_bound_cm,
    decreases t.len() - i,
{
    if a > i {
        lemma_ranges_ordered(t, i + 1, a, b);
    } else if b > a + 1 {
        lemma_ranges_ordered(t, i + 1, a + 1, b);
        lemma_ranges_follow(t, i + 1, a + 1);
    }
}

/// The correction that the calibration table gives does not decrease with
/// the distance: where a point applies to a distance and another point to a
/// larger distance, the first correction is at most the second.
pub proof fn lemma_distance_fudge_nondecreasing(
    channel: UwbChannel,
    prf: PulseRepetitionFrequency,
    d1: i64,
    d2: i64,
    i1: usize,
    i2: usize,
    r1: i64,
    r2: i64,
)
    requires
        0 <= d1 < d2,
        correction_at(spec_calibration_table(channel, prf), i1, d1, r1),
        correction_at(spec_calibration_table(channel, prf), i2, d2, r2),
    ensures
        r1 <= r2,
{
    let t = spec_calibration_table(channel, prf);
    lemma_calibration_table_valid(channel, prf);
    if i1 > i2 {
        lemma_ranges_ordered(t, 0, i2 as int, i1 as int);
        assert(false);
    } else if i1 < i2 {
        lemma_ranges_ordered(t, 0, i1 as int, i2 as int);
    }
}

/// Entry `i` of the calibration table for `config` applies to `distance_mm`,
/// and `r` is the distance corrected by that entry and by the base bias; a
/// corrected distance below zero gives 0.
pub open spec fn corrected_by_point(
    config: RxConfig,
    i: int,
    distance_mm: int,
    r: Result<u64, ComputeDistanceError>,
) -> bool {
    let t = spec_calibration_table(config.channel, config.pulse_repetition_frequency);
    let corrected = distance_mm + t[i].value_cm * 10 - base_bias_mm(
        config.pulse_repetition_frequency,
        config.channel.spec_is_narrow(),
    );
    &&& 0 <= i < t.len()
    &&& point_contains(t[i], distance_mm)
    &&& r == Ok::<u64, ComputeDistanceError>(
        if corrected >= 0 {
            corrected as u64
        } else {
            0
        },
    )
}

/// `r` is `distance_mm` corrected by the calibration point that applies to it
/// and by the base bias, for the receive configuration `config`; a corrected
/// distance below zero gives 0. Where two points apply (at the bound between
/// them), either may be used.
pub open spec fn corrected_distance(config: RxConfig, distance_mm: int, r: Result<u64, ComputeDistanceError>) -> bool {
    exists|i: int| #[trigger] corrected_by_point(config, i, distance_mm, r)
}

/// The four times that a response carries, in the order
/// (ping reply time, ping round-trip time, request reply time, request
/// round-trip time)
pub open spec fn response_times(response: RxMessage<Response>) -> (int, int, int, int) {
    (
        response.payload.ping_reply_time@,
        response.payload.ping_round_trip_time@,
        response.payload.request_reply_time@,
        spec_duration_since(response.rx_time, response.payload.request_tx_time),
    )
}

/// Computes the distance to another node from a ranging response
///
/// The distance is corrected by the range bias that applies to the receive
/// configuration and to the distance itself; a corrected distance below zero
/// gives 0.
pub fn compute_distance_mm(response: &RxMessage<Response>, rx_config: RxConfig) -> (r: Result<
    u64,
    ComputeDistanceError,
>)
    requires
        ({
            let (a, b, c, d) = response_times(*response);
            distance_defined(a, b, c, d)
        }),
    ensures
        ({
            let (a, b, c, d) = response_times(*response);
            match spec_distance_mm(a, b, c, d) {
                Err(e) => r == Err::<u64, ComputeDistanceError>(e),
                Ok(distance_mm) => corrected_distance(rx_config, distance_mm, r),
            }
        }),
{
    // To keep variable names to a reasonable length, this function uses `rt` as
    // a short-hand for "reply time" and `rtt` and a short-hand for "round-trip
    // time".
    let ping_rt = response.payload.ping_reply_time.value();
    let ping_rtt = response.payload.ping_round_trip_time.value();
    let request_rt = response.payload.request_reply_time.value();
    let request_rtt = response.rx_time.duration_since(response.payload.request_tx_time).value();
    // Compute time of flight according to the formula given in the DW1000 user
    // manual, section 12.3.2.
    let rtt_product = match ping_rtt.checked_mul(request_rtt) {
        Some(v) => v,
        None => return Err(ComputeDistanceError::RoundTripTimesTooLarge),
    };
    let rt_product = match ping_rt.checked_mul(request_rt) {
        Some(v) => v,
        None => return Err(ComputeDistanceError::ReplyTimesTooLarge),
    };
    let rt_sum = match ping_rt.checked_add(request_rt) {
        Some(v) => v,
        None => return Err(ComputeDistanceError::SumTooLarge),
    };
    let rtt_sum = match ping_rtt.checked_add(request_rtt) {
        Some(v) => v,
        None => return Err(ComputeDistanceError::SumTooLarge),
    };
    let sum = match rt_sum.checked_add(rtt_sum) {
        Some(v) => v,
        None => return Err(ComputeDistanceError::SumTooLarge),
    };
    let time_of_flight = (rtt_product - rt_product) / sum;
    // Nominally, all time units are based on a 64 Ghz clock, meaning each time
    // unit is 1/64 ns.
    let distance_nm_times_64 = match SPEED_OF_LIGHT.checked_mul(time_of_flight) {
        Some(v) => v,
        None => return Err(ComputeDistanceError::TimeOfFlightTooLarge),
    };
    let distance_mm = (distance_nm_times_64 / 64) / 1_000_000;
    // Now we need to adjust the distance measurement depending on a couple of
    // factors:
    let base_bias_mm: i64 = match (rx_config.pulse_repetition_frequency, rx_config.channel.is_narrow()) {
        (PulseRepetitionFrequency::Mhz16, true) => 230,
        (PulseRepetitionFrequency::Mhz16, false) => 280,
        (PulseRepetitionFrequency::Mhz64, true) => 170,
        (PulseRepetitionFrequency::Mhz64, false) => 300,
    };
    let distance_fudge_mm = search::calculate_distance_fudge(
        distance_mm as i64,
        rx_config.channel,
        rx_config.pulse_repetition_frequency,
    );
    let range_bias_mm = distance_fudge_mm - base_bias_mm;
    let corrected_distance_mm = distance_mm as i64 + range_bias_mm;
    let r = if corrected_distance_mm >= 0 {
        Ok(corrected_distance_mm as u64)
    } else {
        Ok(0)
    };
    proof {
        // The calibration point that the search found
        let t = spec_calibration_table(rx_config.channel, rx_config.pulse_repetition_frequency);
        let i = choose|i: usize| #[trigger] correction_at(t, i, distance_mm as i64, distance_fudge_mm);
        assert(corrected_by_point(rx_config, i as int, distance_mm as int, r));
    }
    r
}

impl CalibrationPoint {
    /// The lower bound of the range, in mm
    fn lower_mm(&self) -> (r: i64)
        ensures
            r == self.lower_bound_cm * 10,
    {
        self.lower_bound_cm as i64 * 10
    }

    /// The upper bound of the range, in mm, if it has one
    fn upper_mm(&self) -> (r: Option<i64>)
        ensures
            r == match self.upper_bound_cm {
                Some(u) => Some((u * 10) as i64),
                None => None::<i64>,
            },
    {
        match self.upper_bound_cm {
            Some(u) => Some(u as i64 * 10),
            None => None,
        }
    }

    /// The correction that applies to the range, in mm
    fn get_adjustment_mm(&self) -> (r: i64)
        ensures
            r == self.value_cm * 10,
    {
        self.value_cm as i64 * 10
    }
}

} // verus!
