//! Supervision of the audio output stream: which device configuration to
//! open next after a request or a failure. Opening streams is done by the
//! host application's audio thread, which reports each outcome back.

use vstd::prelude::*;

verus! {

/// A message to the audio thread.
#[derive(Debug)]
pub enum AudioMessage {
    /// Switch to the named host and device, with an optional fixed buffer size.
    SetDevice { host: String, device: String, buffer_size: Option<u32> },
}

/// A configuration to open: `None` fields mean the system default.
#[derive(Debug)]
pub struct DeviceChoice {
    pub host: Option<String>,
    pub device: Option<String>,
    pub buffer_size: Option<u32>,
}

impl DeviceChoice {
    /// The system's default host and device with the default buffer size.
    pub fn system_default() -> (r: DeviceChoice)
        ensures
            r.is_system_default(),
    {
        DeviceChoice { host: None, device: None, buffer_size: None }
    }

    /// An equal copy of this configuration.
    pub fn duplicate(&self) -> (r: DeviceChoice)
        ensures
            r == *self,
    {
        DeviceChoice { host: copy_text(&self.host), device: copy_text(&self.device), buffer_size: self.buffer_size }
    }

    /// Whether this is the system default configuration.
    pub open spec fn is_system_default(self) -> bool {
        self.host is None && self.device is None && self.buffer_size is None
    }
}

/// An equal copy of an optional name.
fn copy_text(name: &Option<String>) -> (r: Option<String>)
    ensures
        r == *name,
{
    match name {
        Some(s) => Some(s.clone()),
        None => None,
    }
}

/// Which attempt the supervisor is waiting on.
#[derive(Debug)]
pub enum StartPhase {
    /// No attempt outstanding.
    Idle,
    /// The first start at application launch (system default).
    Startup,
    /// The configuration the user asked for.
    Requested(DeviceChoice),
    /// The last configuration that worked (or the default), after a failed request.
    Fallback,
    /// The system default, after the fallback failed too.
    LastResort,
}

/// A failure the supervisor wants shown to the user.
#[derive(Debug)]
pub enum EngineReport {
    /// The stream could not be started at launch.
    StartupFailed,
    /// The requested host / device could not be started.
    DeviceFailed { host: String, device: String },
    /// Falling back to the last working configuration failed too.
    RecoveryFailed,
}

/// What to do after an attempt's outcome: what to report, and what to try next.
#[derive(Debug)]
pub struct EngineDecision {
    pub report: Option<EngineReport>,
    pub next_attempt: Option<DeviceChoice>,
}

/// Decides which output configuration the audio thread opens.
#[derive(Debug)]
pub struct EngineSupervisor {
    /// The last requested configuration that started successfully.
    pub last_good: Option<DeviceChoice>,
    pub phase: StartPhase,
}

/// The text of an optional name (empty when absent).
pub open spec fn text_of(name: Option<String>) -> Seq<char> {
    match name {
        Some(s) => s@,
        None => Seq::<char>::empty(),
    }
}

/// How many more attempts can follow the outcome of the attempt awaited in
/// `phase`.
pub open spec fn attempts_left(phase: StartPhase) -> nat {
    match phase {
        StartPhase::Idle => 0,
        StartPhase::Startup => 0,
        StartPhase::Requested(_) => 2,
        StartPhase::Fallback => 1,
        StartPhase::LastResort => 0,
    }
}

impl EngineSupervisor {
    /// At launch: no configuration has worked yet; the first attempt is the
    /// system default.
    pub fn new() -> (r: (EngineSupervisor, DeviceChoice))
        ensures
            r.0.last_good is None,
            r.0.phase is Startup,
            r.1.is_system_default(),
    {
        (EngineSupervisor { last_good: None, phase: StartPhase::Startup }, DeviceChoice::system_default())
    }

    /// A device change was requested: the requested configuration is the
    /// next attempt.
    pub fn on_message(&mut self, msg: AudioMessage) -> (r: DeviceChoice)
        ensures
            final(self).last_good == old(self).last_good,
            match msg {
                AudioMessage::SetDevice { host, device, buffer_size } => {
                    &&& r.host == Some(host)
                    &&& r.device == Some(device)
                    &&& r.buffer_size == buffer_size
                },
            },
            final(self).phase == StartPhase::Requested(r),
    {
        match msg {
            AudioMessage::SetDevice { host, device, buffer_size } => {
                let choice = DeviceChoice { host: Some(host), device: Some(device), buffer_size };
                self.phase = StartPhase::Requested(choice.duplicate());
                choice
            },
        }
    }

    /// The outcome of the awaited attempt (`started` is whether the stream
    /// opened). A requested configuration that opens becomes the last good
    /// one. A failed request falls back to the last good configuration (or
    /// the default); a failed fallback tries the default once more; a failed
    /// launch or last resort gives up. Every failure but the last resort's
    /// is reported.
    pub fn on_attempt_result(&mut self, started: bool) -> (d: EngineDecision)
        ensures
            d.next_attempt is None <==> final(self).phase is Idle,
            d.next_attempt is Some ==> attempts_left(final(self).phase) < attempts_left(old(self).phase),
            match old(self).phase {
                StartPhase::Idle => {
                    &&& final(self).last_good == old(self).last_good
                    &&& d.report is None
                },
                StartPhase::Startup => {
                    &&& final(self).last_good == old(self).last_good
                    &&& d.next_attempt is None
                    &&& (if started { d.report is None } else { d.report == Some(EngineReport::StartupFailed) })
                },
                StartPhase::Requested(choice) => if started {
                    &&& final(self).last_good == Some(choice)
                    &&& d.report is None
                    &&& d.next_attempt is None
                } else {
                    &&& final(self).last_good == old(self).last_good
                    &&& d.report matches Some(EngineReport::DeviceFailed { host, device })
                        && host@ == text_of(choice.host) && device@ == text_of(choice.device)
                    &&& d.next_attempt == Some(match old(self).last_good {
                        Some(g) => g,
                        None => DeviceChoice { host: None, device: None, buffer_size: None },
                    })
                    &&& final(self).phase is Fallback
                },
                StartPhase::Fallback => {
                    &&& final(self).last_good == old(self).last_good
                    &&& (if started {
                        d.report is None && d.next_attempt is None
                    } else {
                        &&& d.report == Some(EngineReport::RecoveryFailed)
                        &&& d.next_attempt matches Some(c) && c.is_system_default()
                        &&& final(self).phase is LastResort
                    })
                },
                StartPhase::LastResort => {
                    &&& final(self).last_good == old(self).last_good
                    &&& d.report is None
                    &&& d.next_attempt is None
                },
            },
    {
        let mut phase = StartPhase::Idle;
        std::mem::swap(&mut phase, &mut self.phase);
        match phase {
            StartPhase::Idle => EngineDecision { report: None, next_attempt: None },
            StartPhase::Startup => {
                let report = if started { None } else { Some(EngineReport::StartupFailed) };
                EngineDecision { report, next_attempt: None }
            },
            StartPhase::Requested(choice) => {
                if started {
                    self.last_good = Some(choice);
                    EngineDecision { report: None, next_attempt: None }
                } else {
                    let host = match &choice.host { Some(h) => h.clone(), None => String::new() };
                    let device = match &choice.device { Some(d) => d.clone(), None => String::new() };
                    let next = match &self.last_good {
                        Some(g) => g.duplicate(),
                        None => DeviceChoice::system_default(),
                    };
                    self.phase = StartPhase::Fallback;
                    EngineDecision { report: Some(EngineReport::DeviceFailed { host, device }), next_attempt: Some(next) }
                }
            },
            StartPhase::Fallback => {
                if started {
                    EngineDecision { report: None, next_attempt: None }
                } else {
                    self.phase = StartPhase::LastResort;
                    EngineDecision { report: Some(EngineReport::RecoveryFailed), next_attempt: Some(DeviceChoice::system_default()) }
                }
            },
            StartPhase::LastResort => EngineDecision { report: None, next_attempt: None },
        }
    }
}

} // verus!
