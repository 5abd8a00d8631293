use frost_core::channels::{sidechain_source, NUM_CHANNELS};
use frost_core::envelope::{trigger_edge, EnvelopeStage, TriggerEdge};
use frost_core::transport::TransportClock;

#[test]
fn clock_advances_only_while_playing() {
    let mut c = TransportClock::new();
    assert_eq!(c.advance(5), None);
    assert_eq!(c.current_tick, 0);
    c.start();
    assert_eq!(c.advance(0), None);
    assert_eq!(c.advance(3), Some(3));
    assert_eq!(c.advance(2), Some(5));
    c.stop();
    assert_eq!(c.current_tick, 5);
    assert_eq!(c.advance(7), None);
    c.start();
    assert_eq!(c.current_tick, 5);
    c.reset();
    assert_eq!(c.current_tick, 0);
    assert!(c.is_playing);
}

#[test]
fn envelope_stage_course() {
    let s = EnvelopeStage::Idle;
    assert!(s.is_idle());
    assert_eq!(s.on_trigger_off(), EnvelopeStage::Idle);
    let s = s.on_trigger_on();
    assert_eq!(s, EnvelopeStage::Attack);
    assert_eq!(s.after_sample(false), EnvelopeStage::Attack);
    let s = s.after_sample(true);
    assert_eq!(s, EnvelopeStage::Decay);
    let s = s.after_sample(true);
    assert_eq!(s, EnvelopeStage::Sustain);
    assert_eq!(s.after_sample(true), EnvelopeStage::Sustain);
    let s = s.on_trigger_off();
    assert_eq!(s, EnvelopeStage::Release);
    assert_eq!(s.after_sample(false), EnvelopeStage::Release);
    let s = s.after_sample(true);
    assert!(s.is_idle());
    assert_eq!(EnvelopeStage::Decay.on_trigger_on(), EnvelopeStage::Attack);
}

#[test]
fn sidechain_source_must_name_a_channel() {
    assert_eq!(NUM_CHANNELS, 4);
    assert_eq!(sidechain_source(None), None);
    assert_eq!(sidechain_source(Some(2)), Some(2));
    assert_eq!(sidechain_source(Some(4)), None);
}

#[test]
fn trigger_fires_on_edges_only() {
    assert_eq!(trigger_edge(false, true), (true, Some(TriggerEdge::Rise)));
    assert_eq!(trigger_edge(true, true), (true, None));
    assert_eq!(trigger_edge(true, false), (false, Some(TriggerEdge::Fall)));
    assert_eq!(trigger_edge(false, false), (false, None));
}
