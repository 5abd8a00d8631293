//! Catalogue of the built-in instruments and insert effects: the names the
//! user interface uses for them and the numbering of their parameters.

use vstd::prelude::*;

verus! {

/// Whether `s` spells the literal `lit`.
fn is_named(s: &str, lit: &str) -> (r: bool)
    ensures
        r == (s@ == lit@),
{
    s.to_owned() == lit.to_owned()
}

/// The synthesizer engines a channel can play.
#[derive(Debug, Clone, Copy, PartialEq, Eq, Structural)]
pub enum SynthType {
    /// Moog-style wavetable synth.
    Summit,
    /// Korg MS-20-style subtractive synth.
    Eruption,
    /// Wavetable / FM hybrid.
    Nebula,
    /// Sample player.
    Sampler,
}

/// The engine a user-interface name selects.
pub open spec fn synth_type_named(name: Seq<char>) -> Option<SynthType> {
    if name == "Summit"@ {
        Some(SynthType::Summit)
    } else if name == "Eruption"@ {
        Some(SynthType::Eruption)
    } else if name == "Nebula"@ {
        Some(SynthType::Nebula)
    } else if name == "Sampler"@ {
        Some(SynthType::Sampler)
    } else {
        None
    }
}

impl SynthType {
    /// Parses an engine name ("Summit", "Eruption", "Nebula", "Sampler");
    /// any other name is unknown.
    pub fn from_name(name: &str) -> (r: Option<SynthType>)
        ensures
            r == synth_type_named(name@),
    {
        if is_named(name, "Summit") {
            Some(SynthType::Summit)
        } else if is_named(name, "Eruption") {
            Some(SynthType::Eruption)
        } else if is_named(name, "Nebula") {
            Some(SynthType::Nebula)
        } else if is_named(name, "Sampler") {
            Some(SynthType::Sampler)
        } else {
            None
        }
    }

    /// Whether the engine ships with a factory preset bank (all but the sampler).
    pub fn has_factory_bank(self) -> (r: bool)
        ensures
            r == (self != SynthType::Sampler),
    {
        !matches!(self, SynthType::Sampler)
    }

    /// The engine whose factory presets a request for `name` lists: the
    /// named engine when it has a preset bank, otherwise none.
    pub fn preset_bank_named(name: &str) -> (r: Option<SynthType>)
        ensures
            r == (match synth_type_named(name@) {
                Some(t) => if t != SynthType::Sampler { Some(t) } else { None },
                None => None,
            }),
    {
        match SynthType::from_name(name) {
            Some(t) => if t.has_factory_bank() { Some(t) } else { None },
            None => None,
        }
    }
}

/// Basic oscillator wave shapes.
#[derive(Debug, Clone, Copy, PartialEq, Eq, Structural)]
pub enum Waveform {
    Sine,
    Square,
    Saw,
}

/// The insert effects a channel can host.
#[derive(Debug, Clone, Copy, PartialEq, Eq, Structural)]
pub enum PluginKind {
    Compressor,
    Eq,
    Limiter,
    Bass,
    Delay,
    Reverb,
    Distortion,
}

/// The insert effect a user-interface name selects ("Saturator" and
/// "Distortion" name the same effect).
pub open spec fn plugin_kind_named(name: Seq<char>) -> Option<PluginKind> {
    if name == "Compressor"@ {
        Some(PluginKind::Compressor)
    } else if name == "EQ"@ {
        Some(PluginKind::Eq)
    } else if name == "Limiter"@ {
        Some(PluginKind::Limiter)
    } else if name == "Bass"@ {
        Some(PluginKind::Bass)
    } else if name == "Delay"@ {
        Some(PluginKind::Delay)
    } else if name == "Reverb"@ {
        Some(PluginKind::Reverb)
    } else if name == "Saturator"@ || name == "Distortion"@ {
        Some(PluginKind::Distortion)
    } else {
        None
    }
}

impl PluginKind {
    /// Parses an insert-effect name; any other name is unknown.
    pub fn from_name(name: &str) -> (r: Option<PluginKind>)
        ensures
            r == plugin_kind_named(name@),
    {
        if is_named(name, "Compressor") {
            Some(PluginKind::Compressor)
        } else if is_named(name, "EQ") {
            Some(PluginKind::Eq)
        } else if is_named(name, "Limiter") {
            Some(PluginKind::Limiter)
        } else if is_named(name, "Bass") {
            Some(PluginKind::Bass)
        } else if is_named(name, "Delay") {
            Some(PluginKind::Delay)
        } else if is_named(name, "Reverb") {
            Some(PluginKind::Reverb)
        } else if is_named(name, "Saturator") || is_named(name, "Distortion") {
            Some(PluginKind::Distortion)
        } else {
            None
        }
    }
}

/// Wave-shaping curve of the distortion effect.
#[derive(Debug, Clone, Copy, PartialEq, Eq, Structural)]
pub enum DistortionType {
    /// Arctangent soft clipping.
    Soft,
    /// Hard clamp.
    Hard,
    /// Cubic tape-style saturation.
    Tape,
}

impl DistortionType {
    /// The number the mode parameter reports for this curve (0, 1, 2).
    pub fn code(self) -> (r: u32)
        ensures
            r == (match self {
                DistortionType::Soft => 0u32,
                DistortionType::Hard => 1u32,
                DistortionType::Tape => 2u32,
            }),
    {
        match self {
            DistortionType::Soft => 0,
            DistortionType::Hard => 1,
            DistortionType::Tape => 2,
        }
    }
}

/// The three parameters of each band of the parametric EQ.
#[derive(Debug, Clone, Copy, PartialEq, Eq, Structural)]
pub enum EqParam {
    Frequency,
    Gain,
    Q,
}

/// The EQ band and band parameter that parameter id `id` addresses: band
/// `id / 3`, parameter `id % 3` (frequency, gain, Q). `None` when the band
/// does not exist among `num_bands`.
pub fn eq_param_slot(id: u32, num_bands: usize) -> (r: Option<(usize, EqParam)>)
    ensures
        r is Some <==> id / 3 < num_bands,
        r matches Some(slot) ==> {
            &&& slot.0 == id / 3
            &&& slot.1 == (if id % 3 == 0 {
                EqParam::Frequency
            } else if id % 3 == 1 {
                EqParam::Gain
            } else {
                EqParam::Q
            })
        },
{
    let band = (id / 3) as usize;
    if band >= num_bands {
        return None;
    }
    let which = id % 3;
    let param = if which == 0 {
        EqParam::Frequency
    } else if which == 1 {
        EqParam::Gain
    } else {
        EqParam::Q
    };
    Some((band, param))
}

} // verus!
