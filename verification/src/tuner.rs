//! The tuner coordinator: the one owner of the tuner chip. It brings the
//! chip up, then polls it on a fixed cadence, applies at most one queued
//! command per cycle and reports changes of signal strength and frequency.
//!
//! The coordinator does no I/O itself. It says what to do next
//! ([`TunerCoordinator::request`]) and is told what came of it
//! ([`TunerCoordinator::complete`]).

use vstd::prelude::*;
use crate::event::{InputEvent, OutputCommand};
use crate::state::{INITIAL_FREQ_KHZ, INITIAL_VOLUME};

verus! {

/// Signal strength below which a seek passes a station by.
pub const SEEK_THRESHOLD: u8 = 35;

/// Time that the chip needs after start-up, in milliseconds.
pub const CHIP_READY_DELAY_MS: u64 = 100;

/// Time between two polls of the chip, in milliseconds.
pub const POLL_PERIOD_MS: u64 = 100;

/// A change of signal strength is reported once it exceeds this.
pub const RSSI_REPORT_DELTA: u8 = 5;

/// What the coordinator asks its driver loop to do next.
#[derive(Clone, Debug, PartialEq, Eq)]
pub enum TunerRequest {
    /// Initialise the chip.
    Start,
    /// Do nothing for this many milliseconds.
    Wait(u64),
    /// Set the chip's seek threshold.
    SetSeekThreshold(u8),
    /// Tune the chip to this frequency, in kHz.
    SetFrequency(u32),
    /// Set the chip's volume.
    SetVolume(u8),
    /// Start a seek upwards; `wrap` lets it continue past the band's end.
    SeekUp { wrap: bool },
    /// Start a seek downwards; `wrap` lets it continue past the band's end.
    SeekDown { wrap: bool },
    /// Read the chip's status register.
    ReadStatus,
    /// Take one command off the command queue, without waiting for one.
    TakeCommand,
    /// Read the signal strength.
    ReadRssi,
    /// Read the tuned frequency.
    ReadFrequency,
    /// Put this event on the event queue.
    Emit(InputEvent),
}

/// What came of the last request.
#[derive(Clone, Copy, Debug, PartialEq, Eq)]
pub enum TunerReply {
    /// The request was carried out; it yields no value.
    Done,
    /// The status register was read; `stc` is its seek/tune-complete flag.
    Status { stc: bool },
    /// The command queue was looked at: the command at its head, if any.
    Command(Option<OutputCommand>),
    /// The signal strength was read.
    Rssi(u8),
    /// The tuned frequency was read, in kHz.
    Frequency(u32),
}

/// Where the coordinator stands in its start-up sequence or in its cycle.
#[derive(Clone, Copy, Debug, PartialEq, Eq)]
pub enum Phase {
    /// Start-up: the chip is to be initialised.
    Starting,
    /// Start-up: the chip is given time to become ready.
    WarmingUp,
    /// Start-up: the seek threshold is to be set.
    SettingThreshold,
    /// Start-up: the initial frequency is to be set.
    SettingFrequency,
    /// Start-up: the initial volume is to be set.
    SettingVolume,
    /// Cycle: the status register is to be read.
    ReadingStatus,
    /// Cycle: the command queue is to be looked at.
    TakingCommand,
    /// Cycle: the command taken off the queue is to be applied.
    Applying(OutputCommand),
    /// Cycle: the signal strength is to be read.
    ReadingRssi,
    /// Cycle: the signal strength just read is to be reported.
    ReportingRssi,
    /// Cycle: the frequency is to be read.
    ReadingFrequency,
    /// Cycle: the frequency just read is to be reported.
    ReportingFrequency,
    /// Cycle: the coordinator rests until the next poll.
    Sleeping,
}

/// The coordinator's state between two requests.
#[derive(Clone, Copy, Debug, PartialEq, Eq)]
pub struct TunerCoordinator {
    phase: Phase,
    stc: bool,
    last_reported_freq: u32,
    last_reported_rssi: u8,
}

/// The coordinator's state as plain values.
pub struct TunerView {
    /// What is to be done next.
    pub phase: Phase,
    /// The seek/tune-complete flag read at the start of the current cycle.
    pub stc: bool,
    /// The frequency of the last `ChangeFrequency` event, in kHz.
    pub last_reported_freq: u32,
    /// The signal strength of the last `ChangeRSSI` event.
    pub last_reported_rssi: u8,
}

/// Whether the signal strength moved far enough from the last reported one
/// to be reported again.
pub open spec fn rssi_moved(last: u8, rssi: u8) -> bool {
    rssi - last > RSSI_REPORT_DELTA || last - rssi > RSSI_REPORT_DELTA
}

/// Whether a frequency reading is reported: only while a seek is under way,
/// and only when it differs from the last reported one.
pub open spec fn frequency_report_due(last: u32, freq: u32, stc: bool) -> bool {
    freq != last && !stc
}

/// The chip operation that carries out `command`.
pub open spec fn operation_for(command: OutputCommand) -> TunerRequest {
    match command {
        OutputCommand::SetFrequency(freq) => TunerRequest::SetFrequency(freq),
        OutputCommand::SetVolume(volume) => TunerRequest::SetVolume(volume),
        OutputCommand::SeekUp => TunerRequest::SeekUp { wrap: true },
        OutputCommand::SeekDown => TunerRequest::SeekDown { wrap: true },
    }
}

impl TunerView {
    /// The coordinator before its first request.
    pub open spec fn initial() -> TunerView {
        TunerView {
            phase: Phase::Starting,
            stc: false,
            last_reported_freq: 0,
            last_reported_rssi: 0,
        }
    }

    /// What the coordinator asks for in this state.
    pub open spec fn request(self) -> TunerRequest {
        match self.phase {
            Phase::Starting => TunerRequest::Start,
            Phase::WarmingUp => TunerRequest::Wait(CHIP_READY_DELAY_MS),
            Phase::SettingThreshold => TunerRequest::SetSeekThreshold(SEEK_THRESHOLD),
            Phase::SettingFrequency => TunerRequest::SetFrequency(INITIAL_FREQ_KHZ),
            Phase::SettingVolume => TunerRequest::SetVolume(INITIAL_VOLUME),
            Phase::ReadingStatus => TunerRequest::ReadStatus,
            Phase::TakingCommand => TunerRequest::TakeCommand,
            Phase::Applying(command) => operation_for(command),
            Phase::ReadingRssi => TunerRequest::ReadRssi,
            Phase::ReportingRssi => TunerRequest::Emit(
                InputEvent::ChangeRSSI(self.last_reported_rssi),
            ),
            Phase::ReadingFrequency => TunerRequest::ReadFrequency,
            Phase::ReportingFrequency => TunerRequest::Emit(
                InputEvent::ChangeFrequency(self.last_reported_freq),
            ),
            Phase::Sleeping => TunerRequest::Wait(POLL_PERIOD_MS),
        }
    }

    /// Whether `reply` is the kind of answer that the pending request has.
    pub open spec fn expects(self, reply: TunerReply) -> bool {
        match self.phase {
            Phase::ReadingStatus => reply is Status,
            Phase::TakingCommand => reply is Command,
            Phase::ReadingRssi => reply is Rssi,
            Phase::ReadingFrequency => reply is Frequency,
            _ => reply is Done,
        }
    }

    /// The phase that follows once the pending request was answered by
    /// `reply`.
    pub open spec fn phase_after(self, reply: TunerReply) -> Phase {
        match (self.phase, reply) {
            (Phase::Starting, _) => Phase::WarmingUp,
            (Phase::WarmingUp, _) => Phase::SettingThreshold,
            (Phase::SettingThreshold, _) => Phase::SettingFrequency,
            (Phase::SettingFrequency, _) => Phase::SettingVolume,
            (Phase::SettingVolume, _) => Phase::ReadingStatus,
            (Phase::ReadingStatus, _) => Phase::TakingCommand,
            (Phase::TakingCommand, TunerReply::Command(Some(command))) => Phase::Applying(command),
            (Phase::TakingCommand, _) => Phase::ReadingRssi,
            (Phase::Applying(_), _) => Phase::ReadingRssi,
            (Phase::ReadingRssi, TunerReply::Rssi(rssi)) => if rssi_moved(
                self.last_reported_rssi,
                rssi,
            ) {
                Phase::ReportingRssi
            } else {
                Phase::ReadingFrequency
            },
            (Phase::ReadingRssi, _) => Phase::ReadingFrequency,
            (Phase::ReportingRssi, _) => Phase::ReadingFrequency,
            (Phase::ReadingFrequency, TunerReply::Frequency(freq)) => if frequency_report_due(
                self.last_reported_freq,
                freq,
                self.stc,
            ) {
                Phase::ReportingFrequency
            } else {
                Phase::Sleeping
            },
            (Phase::ReadingFrequency, _) => Phase::Sleeping,
            (Phase::ReportingFrequency, _) => Phase::Sleeping,
            (Phase::Sleeping, _) => Phase::ReadingStatus,
        }
    }

    /// The coordinator after the pending request was answered by `reply`.
    pub open spec fn after(self, reply: TunerReply) -> TunerView {
        TunerView {
            phase: self.phase_after(reply),
            stc: match (self.phase, reply) {
                (Phase::ReadingStatus, TunerReply::Status { stc }) => stc,
                _ => self.stc,
            },
            last_reported_freq: match (self.phase, reply) {
                (Phase::ReadingFrequency, TunerReply::Frequency(freq)) if frequency_report_due(
                    self.last_reported_freq,
                    freq,
                    self.stc,
                ) => freq,
                _ => self.last_reported_freq,
            },
            last_reported_rssi: match (self.phase, reply) {
                (Phase::ReadingRssi, TunerReply::Rssi(rssi)) if rssi_moved(
                    self.last_reported_rssi,
                    rssi,
                ) => rssi,
                _ => self.last_reported_rssi,
            },
        }
    }
}

impl View for TunerCoordinator {
    type V = TunerView;

    closed spec fn view(&self) -> TunerView {
        TunerView {
            phase: self.phase,
            stc: self.stc,
            last_reported_freq: self.last_reported_freq,
            last_reported_rssi: self.last_reported_rssi,
        }
    }
}

impl TunerCoordinator {
    /// A coordinator that has not touched the chip yet.
    pub fn new() -> (coordinator: TunerCoordinator)
        ensures
            coordinator@ == TunerView::initial(),
    {
        TunerCoordinator {
            phase: Phase::Starting,
            stc: false,
            last_reported_freq: 0,
            last_reported_rssi: 0,
        }
    }

    /// What to do next. The answer stays the same until `complete` is
    /// called.
    pub fn request(&self) -> (request: TunerRequest)
        ensures
            request == self@.request(),
    {
        match self.phase {
            Phase::Starting => TunerRequest::Start,
            Phase::WarmingUp => TunerRequest::Wait(CHIP_READY_DELAY_MS),
            Phase::SettingThreshold => TunerRequest::SetSeekThreshold(SEEK_THRESHOLD),
            Phase::SettingFrequency => TunerRequest::SetFrequency(INITIAL_FREQ_KHZ),
            Phase::SettingVolume => TunerRequest::SetVolume(INITIAL_VOLUME),
            Phase::ReadingStatus => TunerRequest::ReadStatus,
            Phase::TakingCommand => TunerRequest::TakeCommand,
            Phase::Applying(command) => match command {
                OutputCommand::SetFrequency(freq) => TunerRequest::SetFrequency(freq),
                OutputCommand::SetVolume(volume) => TunerRequest::SetVolume(volume),
                OutputCommand::SeekUp => TunerRequest::SeekUp { wrap: true },
                OutputCommand::SeekDown => TunerRequest::SeekDown { wrap: true },
            },
            Phase::ReadingRssi => TunerRequest::ReadRssi,
            Phase::ReportingRssi => TunerRequest::Emit(
                InputEvent::ChangeRSSI(self.last_reported_rssi),
            ),
            Phase::ReadingFrequency => TunerRequest::ReadFrequency,
            Phase::ReportingFrequency => TunerRequest::Emit(
                InputEvent::ChangeFrequency(self.last_reported_freq),
            ),
            Phase::Sleeping => TunerRequest::Wait(POLL_PERIOD_MS),
        }
    }

    /// Whether `reply` is the kind of answer that the pending request has.
    pub fn expects(&self, reply: &TunerReply) -> (ok: bool)
        ensures
            ok == self@.expects(*reply),
    {
        match (self.phase, reply) {
            (Phase::ReadingStatus, TunerReply::Status { .. }) => true,
            (Phase::ReadingStatus, _) => false,
            (Phase::TakingCommand, TunerReply::Command(_)) => true,
            (Phase::TakingCommand, _) => false,
            (Phase::ReadingRssi, TunerReply::Rssi(_)) => true,
            (Phase::ReadingRssi, _) => false,
            (Phase::ReadingFrequency, TunerReply::Frequency(_)) => true,
            (Phase::ReadingFrequency, _) => false,
            (_, TunerReply::Done) => true,
            (_, _) => false,
        }
    }

    /// Takes the answer to the pending request and moves on to the next
    /// one.
    pub fn complete(&mut self, reply: TunerReply)
        requires
            old(self)@.expects(reply),
        ensures
            final(self)@ == old(self)@.after(reply),
    {
        match self.phase {
            Phase::Starting => {
                self.phase = Phase::WarmingUp;
            },
            Phase::WarmingUp => {
                self.phase = Phase::SettingThreshold;
            },
            Phase::SettingThreshold => {
                self.phase = Phase::SettingFrequency;
            },
            Phase::SettingFrequency => {
                self.phase = Phase::SettingVolume;
            },
            Phase::SettingVolume => {
                self.phase = Phase::ReadingStatus;
            },
            Phase::ReadingStatus => {
                if let TunerReply::Status { stc } = reply {
                    self.stc = stc;
                }
                self.phase = Phase::TakingCommand;
            },
            Phase::TakingCommand => {
                self.phase = match reply {
                    TunerReply::Command(Some(command)) => Phase::Applying(command),
                    _ => Phase::ReadingRssi,
                };
            },
            Phase::Applying(_) => {
                self.phase = Phase::ReadingRssi;
            },
            Phase::ReadingRssi => {
                self.phase = Phase::ReadingFrequency;
                if let TunerReply::Rssi(rssi) = reply {
                    let last = self.last_reported_rssi;
                    let moved = if rssi > last {
                        rssi - last > RSSI_REPORT_DELTA
                    } else {
                        last - rssi > RSSI_REPORT_DELTA
                    };
                    if moved {
                        self.last_reported_rssi = rssi;
                        self.phase = Phase::ReportingRssi;
                    }
                }
            },
            Phase::ReportingRssi => {
                self.phase = Phase::ReadingFrequency;
            },
            Phase::ReadingFrequency => {
                self.phase = Phase::Sleeping;
                if let TunerReply::Frequency(freq) = reply {
                    if self.last_reported_freq != freq && !self.stc {
                        self.last_reported_freq = freq;
                        self.phase = Phase::ReportingFrequency;
                    }
                }
            },
            Phase::ReportingFrequency => {
                self.phase = Phase::Sleeping;
            },
            Phase::Sleeping => {
                self.phase = Phase::ReadingStatus;
            },
        }
    }
}

} // verus!
