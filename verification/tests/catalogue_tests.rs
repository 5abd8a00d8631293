use frost_core::presets::{factory_category_name, factory_slot, FACTORY_BANK_SIZE};
use frost_core::instruments::{eq_param_slot, DistortionType, EqParam, PluginKind, SynthType};

#[test]
fn synth_names() {
    assert_eq!(SynthType::from_name("Summit"), Some(SynthType::Summit));
    assert_eq!(SynthType::from_name("Eruption"), Some(SynthType::Eruption));
    assert_eq!(SynthType::from_name("Nebula"), Some(SynthType::Nebula));
    assert_eq!(SynthType::from_name("Sampler"), Some(SynthType::Sampler));
    assert_eq!(SynthType::from_name("summit"), None);
    assert_eq!(SynthType::from_name(""), None);
}

#[test]
fn preset_banks() {
    assert_eq!(SynthType::preset_bank_named("Nebula"), Some(SynthType::Nebula));
    assert_eq!(SynthType::preset_bank_named("Sampler"), None);
    assert_eq!(SynthType::preset_bank_named("Moog"), None);
    assert!(!SynthType::Sampler.has_factory_bank());
    assert!(SynthType::Summit.has_factory_bank());
}

#[test]
fn plugin_names() {
    assert_eq!(PluginKind::from_name("Compressor"), Some(PluginKind::Compressor));
    assert_eq!(PluginKind::from_name("EQ"), Some(PluginKind::Eq));
    assert_eq!(PluginKind::from_name("Limiter"), Some(PluginKind::Limiter));
    assert_eq!(PluginKind::from_name("Bass"), Some(PluginKind::Bass));
    assert_eq!(PluginKind::from_name("Delay"), Some(PluginKind::Delay));
    assert_eq!(PluginKind::from_name("Reverb"), Some(PluginKind::Reverb));
    assert_eq!(PluginKind::from_name("Saturator"), Some(PluginKind::Distortion));
    assert_eq!(PluginKind::from_name("Distortion"), Some(PluginKind::Distortion));
    assert_eq!(PluginKind::from_name("Chorus"), None);
}

#[test]
fn distortion_mode_codes() {
    assert_eq!(DistortionType::Soft.code(), 0);
    assert_eq!(DistortionType::Hard.code(), 1);
    assert_eq!(DistortionType::Tape.code(), 2);
}

#[test]
fn eq_parameter_ids() {
    assert_eq!(eq_param_slot(0, 5), Some((0, EqParam::Frequency)));
    assert_eq!(eq_param_slot(4, 5), Some((1, EqParam::Gain)));
    assert_eq!(eq_param_slot(14, 5), Some((4, EqParam::Q)));
    assert_eq!(eq_param_slot(15, 5), None);
}

#[test]
fn factory_bank_layout() {
    assert_eq!(FACTORY_BANK_SIZE, 50);
    assert_eq!(factory_slot(0), (0, 1));
    assert_eq!(factory_slot(7), (2, 2));
    assert_eq!(factory_slot(49), (4, 10));
    assert_eq!(factory_category_name(SynthType::Summit, 0), Some("Lead"));
    assert_eq!(factory_category_name(SynthType::Eruption, 1), Some("Fat Bass"));
    assert_eq!(factory_category_name(SynthType::Nebula, 4), Some("Bells"));
    assert_eq!(factory_category_name(SynthType::Nebula, 5), None);
    assert_eq!(factory_category_name(SynthType::Sampler, 0), None);
}
