use twatch::bridge::NotifyChannel;
use twatch::events::TwatchRawEvent;

#[test]
fn raw_event_codes_round_trip() {
    let all = [
        TwatchRawEvent::Rtc,
        TwatchRawEvent::Timer,
        TwatchRawEvent::Touch,
        TwatchRawEvent::Pmu,
        TwatchRawEvent::Accel,
        TwatchRawEvent::Unknown,
    ];
    for e in all {
        assert_eq!(TwatchRawEvent::from_bits(e.to_bits()), e);
    }
    assert_eq!(TwatchRawEvent::Rtc.to_bits(), 0x1);
    assert_eq!(TwatchRawEvent::Timer.to_bits(), 0x2);
    assert_eq!(TwatchRawEvent::Touch.to_bits(), 0x4);
    assert_eq!(TwatchRawEvent::Pmu.to_bits(), 0x8);
    assert_eq!(TwatchRawEvent::Accel.to_bits(), 0x10);
}

#[test]
fn unknown_words_decode_to_unknown() {
    assert_eq!(TwatchRawEvent::from_bits(0), TwatchRawEvent::Unknown);
    assert_eq!(TwatchRawEvent::from_bits(0x20), TwatchRawEvent::Unknown);
    assert_eq!(TwatchRawEvent::from_bits(0x8000_0000), TwatchRawEvent::Unknown);
    assert_eq!(TwatchRawEvent::from_bits(0x3), TwatchRawEvent::Unknown);
}

#[test]
fn burst_of_same_kind_coalesces_to_one_event() {
    let mut c = NotifyChannel::new();
    // A burst of touch interrupts faster than the consumer drains.
    c.post(TwatchRawEvent::Touch);
    c.post(TwatchRawEvent::Touch);
    c.post(TwatchRawEvent::Touch);
    let drained = c.drain();
    // Coalesced, but never starved: exactly one touch event survives.
    assert_eq!(drained, vec![TwatchRawEvent::Touch]);
    assert_eq!(c.pending, 0);
}

#[test]
fn distinct_sources_never_mask_each_other() {
    let mut c = NotifyChannel::new();
    c.post(TwatchRawEvent::Pmu);
    c.post(TwatchRawEvent::Touch);
    c.post(TwatchRawEvent::Rtc);
    c.post(TwatchRawEvent::Pmu);
    let drained = c.drain();
    assert_eq!(
        drained,
        vec![TwatchRawEvent::Rtc, TwatchRawEvent::Touch, TwatchRawEvent::Pmu]
    );
}

#[test]
fn drain_on_empty_channel_yields_nothing() {
    let mut c = NotifyChannel::new();
    assert_eq!(c.drain(), Vec::<TwatchRawEvent>::new());
}
