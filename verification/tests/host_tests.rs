use frost_core::audio_engine::{AudioMessage, EngineReport, EngineSupervisor, StartPhase};
use frost_core::browser::{is_sample_file_extension, is_supported_audio_extension, is_vst3_extension, ModuleClass, SampleNode, VstPluginInfo};
use frost_core::sample_decoding::{after_decode, after_read, cache_evictions, DecodeOutcome, DecodeStep, ReadOutcome};

#[test]
fn audio_extensions() {
    assert!(is_supported_audio_extension("wav"));
    assert!(is_supported_audio_extension("flac"));
    assert!(!is_supported_audio_extension("WAV"));
    assert!(is_sample_file_extension("WAV"));
    assert!(is_sample_file_extension("Mp3"));
    assert!(is_sample_file_extension("ogg"));
    assert!(!is_sample_file_extension("txt"));
    assert!(is_vst3_extension("vst3"));
    assert!(!is_vst3_extension("dll"));
}

#[test]
fn sample_nodes() {
    let f = SampleNode::for_file("kick.WAV".to_string(), "/s/kick.WAV".to_string(), Some("WAV")).unwrap();
    assert_eq!(f.name, "kick.WAV");
    assert!(!f.is_dir);
    assert!(f.children.is_none());
    assert!(SampleNode::for_file("notes.txt".to_string(), "/s/notes.txt".to_string(), Some("txt")).is_none());
    assert!(SampleNode::for_file("README".to_string(), "/s/README".to_string(), None).is_none());
    let d = SampleNode::for_directory("s".to_string(), "/s".to_string(), Some(vec![f]));
    assert!(d.is_dir);
    assert_eq!(d.children.as_ref().unwrap().len(), 1);
}

#[test]
fn vst_info_defaults_and_module_info() {
    let bare = VstPluginInfo::from_bundle("Verb".to_string(), "/p/Verb.vst3".to_string(), None);
    assert_eq!(bare.name, "Verb");
    assert_eq!(bare.vendor, "Unknown Vendor");
    assert_eq!(bare.category, "Effect");
    assert_eq!(bare.cid, None);
    let classes = vec![
        ModuleClass { name: Some("Space Verb".to_string()), category: None, vendor: Some("Acme".to_string()), cid: Some("ABCD".to_string()) },
        ModuleClass { name: Some("Other".to_string()), category: Some("Instrument".to_string()), vendor: None, cid: None },
    ];
    let info = VstPluginInfo::from_bundle("Verb".to_string(), "/p/Verb.vst3".to_string(), Some(classes));
    assert_eq!(info.name, "Space Verb");
    assert_eq!(info.vendor, "Acme");
    assert_eq!(info.category, "Effect");
    assert_eq!(info.cid.as_deref(), Some("ABCD"));
    assert_eq!(info.path, "/p/Verb.vst3");
    let empty = VstPluginInfo::from_bundle("X".to_string(), "/p/X.vst3".to_string(), Some(vec![]));
    assert_eq!(empty.name, "X");
}

#[test]
fn supervisor_falls_back_then_gives_up() {
    let (mut sup, first) = EngineSupervisor::new();
    assert!(first.host.is_none() && first.device.is_none() && first.buffer_size.is_none());
    let d = sup.on_attempt_result(true);
    assert!(d.report.is_none() && d.next_attempt.is_none());

    let c = sup.on_message(AudioMessage::SetDevice { host: "ALSA".to_string(), device: "hw0".to_string(), buffer_size: Some(256) });
    assert_eq!(c.host.as_deref(), Some("ALSA"));
    assert_eq!(c.buffer_size, Some(256));
    let d = sup.on_attempt_result(true);
    assert!(d.next_attempt.is_none());
    assert_eq!(sup.last_good.as_ref().unwrap().device.as_deref(), Some("hw0"));

    sup.on_message(AudioMessage::SetDevice { host: "JACK".to_string(), device: "x".to_string(), buffer_size: None });
    let d = sup.on_attempt_result(false);
    match d.report {
        Some(EngineReport::DeviceFailed { host, device }) => {
            assert_eq!(host, "JACK");
            assert_eq!(device, "x");
        }
        _ => panic!("expected a device failure report"),
    }
    let fallback = d.next_attempt.unwrap();
    assert_eq!(fallback.device.as_deref(), Some("hw0"));
    let d = sup.on_attempt_result(false);
    assert!(matches!(d.report, Some(EngineReport::RecoveryFailed)));
    assert!(d.next_attempt.unwrap().host.is_none());
    let d = sup.on_attempt_result(false);
    assert!(d.report.is_none() && d.next_attempt.is_none());
    assert!(matches!(sup.phase, StartPhase::Idle));
    assert_eq!(sup.last_good.as_ref().unwrap().host.as_deref(), Some("ALSA"));
}

#[test]
fn startup_failure_is_reported_once() {
    let (mut sup, _) = EngineSupervisor::new();
    let d = sup.on_attempt_result(false);
    assert!(matches!(d.report, Some(EngineReport::StartupFailed)));
    assert!(d.next_attempt.is_none());
    assert!(sup.last_good.is_none());
}

#[test]
fn decode_policy() {
    assert_eq!(after_read(ReadOutcome::Packet { track_id: 1 }, 1), DecodeStep::Decode);
    assert_eq!(after_read(ReadOutcome::Packet { track_id: 2 }, 1), DecodeStep::Skip);
    assert_eq!(after_read(ReadOutcome::ResetRequired, 1), DecodeStep::ResetDecoder);
    assert_eq!(after_read(ReadOutcome::EndOfFile, 1), DecodeStep::Finish);
    assert_eq!(after_read(ReadOutcome::ReadFailed, 1), DecodeStep::Finish);
    assert_eq!(after_decode(DecodeOutcome::Decoded), DecodeStep::Append);
    assert_eq!(after_decode(DecodeOutcome::Corrupt), DecodeStep::Skip);
    assert_eq!(after_decode(DecodeOutcome::Failed), DecodeStep::Abort);
}

#[test]
fn cache_eviction_counts() {
    assert_eq!(cache_evictions(0), 0);
    assert_eq!(cache_evictions(255), 0);
    assert_eq!(cache_evictions(256), 51);
}
