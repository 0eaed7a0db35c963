use crate::stream::AudioInitError;
use vstd::arithmetic::div_mod::{lemma_add_mod_noop, lemma_small_mod};
use vstd::prelude::*;

verus! {

/// Which input device a capture stream is opened on.
#[derive(Debug, Clone, Copy, PartialEq, Eq, Structural)]
pub enum Source {
    /// The platform's default input device.
    Default,
    /// The device at this index of the enumerated device list.
    Listed(usize),
}

/// Where the processor stands in its lifecycle.
#[derive(Debug, Clone, Copy, PartialEq, Eq, Structural)]
pub enum Phase {
    /// No stream is open.
    NoAudio,
    /// A stream is open on `source`, running at `sample_rate`.
    Capturing { source: Source, sample_rate: u32 },
    /// No stream is open; one is being opened on `source`, and if that fails
    /// `fallback` is tried next.
    Starting { source: Source, fallback: Option<Source> },
}

/// What the host must do next to follow the processor.
#[derive(Debug, Clone, Copy, PartialEq, Eq, Structural)]
pub enum Command {
    /// Nothing.
    Idle,
    /// Open a stream on the source and report the outcome.
    Start(Source),
    /// Release the open stream completely, then open one on the source and
    /// report the outcome.
    ReleaseThenStart(Source),
}

/// The number of hardware streams open in a phase.
pub open spec fn live_streams(p: Phase) -> nat {
    match p {
        Phase::Capturing { .. } => 1,
        _ => 0,
    }
}

/// The number of streams that stay open once a command's release, if any, is
/// done and before its start.
pub open spec fn live_before_start(p: Phase, c: Command) -> nat {
    match c {
        Command::ReleaseThenStart(_) => 0,
        _ => live_streams(p),
    }
}

/// The phase, selected index and command after a request to switch to the
/// next of `n` listed devices.
pub open spec fn switch_step(p: Phase, selected: usize, n: usize) -> (Phase, usize, Command) {
    if n == 0 || p is Starting {
        (p, selected, Command::Idle)
    } else {
        let next = ((selected + 1) % (n as int)) as usize;
        (
            Phase::Starting { source: Source::Listed(next), fallback: Some(Source::Listed(selected)) },
            next,
            if p is Capturing {
                Command::ReleaseThenStart(Source::Listed(next))
            } else {
                Command::Start(Source::Listed(next))
            },
        )
    }
}

/// The phase, selected index and command after the outcome of opening a
/// stream is reported.
pub open spec fn opened_step(p: Phase, selected: usize, outcome: Result<u32, AudioInitError>) -> (
    Phase,
    usize,
    Command,
) {
    match p {
        Phase::Starting { source, fallback } => match outcome {
            Ok(rate) => (Phase::Capturing { source, sample_rate: rate }, selected, Command::Idle),
            Err(_) => match fallback {
                Some(f) => (
                    Phase::Starting { source: f, fallback: None },
                    match f {
                        Source::Listed(i) => i,
                        Source::Default => selected,
                    },
                    Command::Start(f),
                ),
                None => (Phase::NoAudio, selected, Command::Idle),
            },
        },
        _ => (p, selected, Command::Idle),
    }
}

/// The device lifecycle of the capture pipeline, as a state machine: the host
/// reports each outcome and carries out the command it gets back.  A new stream
/// is only ever opened with no other stream open.
pub struct Processor {
    phase: Phase,
    selected: usize,
}

impl Processor {
    /// The current phase.
    pub closed spec fn phase_spec(&self) -> Phase {
        self.phase
    }

    /// The index of the listed device chosen last.
    pub closed spec fn selected_spec(&self) -> usize {
        self.selected
    }

    /// The processor as it starts up, and its first command.  With listed
    /// devices the first one is opened, falling back to the default device;
    /// with none the default device is opened.
    pub fn start(device_count: usize) -> (r: (Processor, Command))
        ensures
            r.0.selected_spec() == 0,
            device_count > 0 ==> r.0.phase_spec() == (Phase::Starting {
                source: Source::Listed(0),
                fallback: Some(Source::Default),
            }) && r.1 == Command::Start(Source::Listed(0)),
            device_count == 0 ==> r.0.phase_spec() == (Phase::Starting {
                source: Source::Default,
                fallback: None,
            }) && r.1 == Command::Start(Source::Default),
    {
        if device_count > 0 {
            (
                Processor {
                    phase: Phase::Starting { source: Source::Listed(0), fallback: Some(Source::Default) },
                    selected: 0,
                },
                Command::Start(Source::Listed(0)),
            )
        } else {
            (
                Processor {
                    phase: Phase::Starting { source: Source::Default, fallback: None },
                    selected: 0,
                },
                Command::Start(Source::Default),
            )
        }
    }

    /// The current phase.
    pub fn phase(&self) -> (p: Phase)
        ensures
            p == self.phase_spec(),
    {
        self.phase
    }

    /// The index of the listed device chosen last.
    pub fn selected(&self) -> (i: usize)
        ensures
            i == self.selected_spec(),
    {
        self.selected
    }

    /// The rate of the open stream, or 0 when no stream is open.
    pub fn sample_rate(&self) -> (r: u32)
        ensures
            match self.phase_spec() {
                Phase::Capturing { sample_rate, .. } => r == sample_rate,
                _ => r == 0,
            },
    {
        match self.phase {
            Phase::Capturing { sample_rate, .. } => sample_rate,
            _ => 0,
        }
    }

    /// Asks to move on to the next listed device, wrapping after the last.  The
    /// open stream, if any, is released before the new one is opened; should
    /// the new one fail, the device chosen before is tried again.  Nothing
    /// happens with no listed devices or while a stream is being opened.
    pub fn switch_device(&mut self, device_count: usize) -> (c: Command)
        ensures
            (final(self).phase_spec(), final(self).selected_spec(), c) == switch_step(
                old(self).phase_spec(),
                old(self).selected_spec(),
                device_count,
            ),
            !(c is Idle) ==> live_before_start(old(self).phase_spec(), c) == 0,
            live_streams(final(self).phase_spec()) <= 1,
    {
        if device_count == 0 {
            return Command::Idle;
        }
        if matches!(self.phase, Phase::Starting { .. }) {
            return Command::Idle;
        }
        let old_index = self.selected;
        let next = (old_index % device_count + 1) % device_count;
        proof {
            lemma_add_mod_noop(old_index as int, 1, device_count as int);
            if device_count > 1 {
                lemma_small_mod(1, device_count as nat);
            }
        }
        let c = if matches!(self.phase, Phase::Capturing { .. }) {
            Command::ReleaseThenStart(Source::Listed(next))
        } else {
            Command::Start(Source::Listed(next))
        };
        self.selected = next;
        self.phase = Phase::Starting { source: Source::Listed(next), fallback: Some(Source::Listed(old_index)) };
        c
    }

    /// Takes the outcome of opening a stream: the negotiated rate, or why it
    /// failed.  On success the processor captures; on failure it tries the
    /// fallback, and with none left it settles with no audio.  Outcomes that
    /// nothing waits for are ignored.
    pub fn stream_opened(&mut self, outcome: Result<u32, AudioInitError>) -> (c: Command)
        ensures
            (final(self).phase_spec(), final(self).selected_spec(), c) == opened_step(
                old(self).phase_spec(),
                old(self).selected_spec(),
                outcome,
            ),
            !(c is Idle) ==> live_before_start(old(self).phase_spec(), c) == 0,
            live_streams(final(self).phase_spec()) <= 1,
    {
        match self.phase {
            Phase::Starting { source, fallback } => match outcome {
                Ok(rate) => {
                    self.phase = Phase::Capturing { source, sample_rate: rate };
                    Command::Idle
                },
                Err(_) => match fallback {
                    Some(f) => {
                        match f {
                            Source::Listed(i) => {
                                self.selected = i;
                            },
                            Source::Default => {},
                        }
                        self.phase = Phase::Starting { source: f, fallback: None };
                        Command::Start(f)
                    },
                    None => {
                        self.phase = Phase::NoAudio;
                        Command::Idle
                    },
                },
            },
            _ => Command::Idle,
        }
    }
}

/// A stream is opened only with no other stream open, and never more than one
/// stream is open: whatever the phase, a switch request or a reported outcome
/// leads to a command that opens a stream only once every open stream is
/// released, and to a phase with at most one stream open.
pub proof fn lemma_one_stream_at_most(
    p: Phase,
    selected: usize,
    n: usize,
    outcome: Result<u32, AudioInitError>,
)
    ensures
        !(switch_step(p, selected, n).2 is Idle) ==> live_before_start(p, switch_step(p, selected, n).2) == 0,
        live_streams(switch_step(p, selected, n).0) <= 1,
        !(opened_step(p, selected, outcome).2 is Idle) ==> live_before_start(p, opened_step(p, selected, outcome).2) == 0,
        live_streams(opened_step(p, selected, outcome).0) <= 1,
{
}

/// A successful switch leaves exactly one stream open: switching away from a
/// capturing processor first releases its stream, and once the stream on the
/// next device reports success, that stream is the only one open.
pub proof fn lemma_switch_success_one_stream(
    source: Source,
    rate: u32,
    selected: usize,
    n: usize,
    new_rate: u32,
)
    requires
        n > 0,
    ensures
        ({
            let before = Phase::Capturing { source, sample_rate: rate };
            let s1 = switch_step(before, selected, n);
            let s2 = opened_step(s1.0, s1.1, Ok(new_rate));
            &&& s1.2 is ReleaseThenStart
            &&& live_streams(s1.0) == 0
            &&& live_streams(s2.0) == 1
            &&& s2.0 == (Phase::Capturing {
                source: Source::Listed(((selected + 1) % (n as int)) as usize),
                sample_rate: new_rate,
            })
        }),
{
}

} // verus!
