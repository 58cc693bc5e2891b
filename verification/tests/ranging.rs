use dw1000::configs::{PulseRepetitionFrequency, UwbChannel};
use dw1000::hl::Error;
use dw1000::ll::{ChipSelect, Spi};
use dw1000::mac::{Address, Frame, Header};
use dw1000::ranging::correction::{ch_2_prf_64, ch_3_prf_64, ch_5_prf_64, correct_range_bias};
use dw1000::ranging::{
    calibration_table, compute_distance_mm, ComputeDistanceError, Message, Ping, Request, Response,
    RxMessage,
};
use dw1000::time::{Duration, Instant, TIME_MAX};
use dw1000::RxConfig;

struct NoSpi;
struct NoCs;

impl Spi for NoSpi {
    type TransferError = ();
    type WriteError = ();
    fn transfer(&mut self, _: &mut [u8; 128], _: usize) -> Result<(), ()> {
        Ok(())
    }
    fn write(&mut self, _: &[u8; 128], _: usize) -> Result<(), ()> {
        Ok(())
    }
}

impl ChipSelect for NoCs {
    type Error = ();
    fn set_low(&mut self) -> Result<(), ()> {
        Ok(())
    }
    fn set_high(&mut self) -> Result<(), ()> {
        Ok(())
    }
}

fn response(ping_rt: u64, ping_rtt: u64, request_rt: u64, request_rtt: u64) -> RxMessage<Response> {
    let request_tx_time = Instant::new(TIME_MAX - 5).unwrap();
    // The request round-trip time runs over the end of the 40-bit clock
    let rx_time = request_tx_time + Duration::new(request_rtt).unwrap();
    RxMessage {
        rx_time,
        source: None,
        payload: Response {
            ping_reply_time: Duration::new(ping_rt).unwrap(),
            ping_round_trip_time: Duration::new(ping_rtt).unwrap(),
            request_tx_time,
            request_reply_time: Duration::new(request_rt).unwrap(),
        },
    }
}

#[test]
fn distance_of_a_symmetric_exchange() {
    // A time of flight of 1000 units: 299792458 * 1000 / 64 nm = 4684 mm,
    // corrected by 170 mm from the calibration table and by -230 mm of base
    // bias (channel 5 is narrow, PRF 16 MHz).
    let r = response(100_000, 102_000, 100_000, 102_000);
    assert_eq!(compute_distance_mm(&r, RxConfig::default()).unwrap(), 4684 + 170 - 230);
}

#[test]
fn distance_is_never_negative() {
    let r = response(100_000, 100_000, 100_000, 100_000);
    assert_eq!(compute_distance_mm(&r, RxConfig::default()).unwrap(), 0);
}

#[test]
fn distance_errors() {
    let r = response(1, TIME_MAX, 1, TIME_MAX);
    assert!(matches!(compute_distance_mm(&r, RxConfig::default()), Err(ComputeDistanceError::RoundTripTimesTooLarge)));
    let r = response(TIME_MAX, 4, TIME_MAX, 4);
    assert!(matches!(compute_distance_mm(&r, RxConfig::default()), Err(ComputeDistanceError::ReplyTimesTooLarge)));
}

#[test]
fn calibration_tables_cover_all_distances() {
    for channel in [UwbChannel::Channel1, UwbChannel::Channel2, UwbChannel::Channel3, UwbChannel::Channel4, UwbChannel::Channel5, UwbChannel::Channel7] {
        for prf in [PulseRepetitionFrequency::Mhz16, PulseRepetitionFrequency::Mhz64] {
            let t = calibration_table(channel, prf);
            assert_eq!(t[0].lower_bound_cm, 0);
            assert!(t.last().unwrap().upper_bound_cm.is_none());
            for w in t.windows(2) {
                assert_eq!(w[0].upper_bound_cm, Some(w[1].lower_bound_cm));
                // The corrections do not decrease with the distance
                assert!(w[0].value_cm <= w[1].value_cm);
            }
        }
    }
}

#[test]
fn range_bias_is_corrected_and_clamped() {
    let t = ch_2_prf_64();
    assert_eq!(correct_range_bias(&t, 0), 0);
    assert_eq!(correct_range_bias(&t, 100), 87);
    assert_eq!(correct_range_bias(&t, 101), 90);
    assert_eq!(correct_range_bias(&t, 3451), 3459);
    assert_eq!(correct_range_bias(&t, u16::MAX), u16::MAX);
    assert_eq!(correct_range_bias(&ch_3_prf_64(), 125), 114);
    assert_eq!(correct_range_bias(&ch_5_prf_64(), 175), 166);
}

fn message(payload: &[u8]) -> dw1000::Message {
    dw1000::Message {
        rx_time: Instant::new(42).unwrap(),
        frame: Frame {
            header: Header {
                frame_type: 1,
                frame_pending: false,
                ack_request: false,
                pan_id_compress: false,
                seq: 3,
                destination: None,
                source: Some(Address::Short(1, 2)),
            },
            payload: payload.to_vec(),
        },
    }
}

#[test]
fn messages_decode_by_prelude_and_length() {
    let mut ping = b"RANGING PING".to_vec();
    ping.extend_from_slice(&[1, 2, 3, 4, 5, 0, 0, 0]);
    match Ping::decode::<NoSpi, NoCs>(&message(&ping)) {
        Ok(Some(m)) => {
            assert_eq!(m.payload, vec![1, 2, 3, 4, 5, 0, 0, 0]);
            assert_eq!(m.rx_time.value(), 42);
            assert_eq!(m.source, Some(Address::Short(1, 2)));
        }
        _ => panic!("not decoded"),
    }
    // A ping is no request, and no response
    assert!(matches!(Request::decode::<NoSpi, NoCs>(&message(&ping)), Ok(None)));
    assert!(matches!(Response::decode::<NoSpi, NoCs>(&message(&ping)), Ok(None)));
    // A ping of the wrong length
    assert!(matches!(
        Ping::decode::<NoSpi, NoCs>(&message(b"RANGING PING!")),
        Err(Error::BufferTooSmall { required_len: 20 })
    ));
    assert_eq!(Request::len(), 39);
    assert_eq!(Response::len(), 48);
    assert_eq!(Response::prelude().0, b"RANGING RESPONSE".to_vec());
}

#[test]
fn large_round_trips_do_not_overflow_the_sums() {
    // The products fit into 64 bits, so neither the sums nor the time of
    // flight overflow: the time of flight is 2147483647 units.
    let r = response(0, 0xFFFF_FFFF, 0, 0xFFFF_FFFF);
    assert_eq!(compute_distance_mm(&r, RxConfig::default()).unwrap(), 10059365641 + 360 - 230);
}
