//! The agent: one host's endless cycle of sampling, sending a record,
//! awaiting the reply and sleeping.
//!
//! The agent decides; its driver connects, measures the CPU, writes, reads
//! and sleeps, and reports how each went.

use crate::metrics::SystemMetrics;
use crate::sampling::{collect_metrics, sampled};
use systemstat::System;
use vstd::prelude::*;

verus! {

/// Seconds over which the driver measures the CPU load for one sample.
pub const CPU_WINDOW_SECS: u64 = 1;

/// Seconds that the agent sleeps between one reply and the next sample.
pub const INTERVAL_SECS: u64 = 5;

/// What the agent is waiting for.
#[derive(Clone, Copy, Debug, PartialEq, Eq, Structural)]
pub enum AgentPhase {
    /// For the connection to the collector to be established.
    Connecting,
    /// For the CPU measurement of this cycle.
    Sampling,
    /// For the record's line to be written out.
    Sending,
    /// For the collector's reply line.
    AwaitingAck,
    /// For the interval to pass.
    Sleeping,
    /// For nothing: the agent has given up.
    Stopped,
}

/// What the driver reports back.
#[derive(Clone, Copy, Debug, PartialEq, Eq, Structural)]
pub enum AgentEvent {
    /// The connection stands.
    Connected,
    /// The CPU measurement ended: the bit pattern of the usage percentage,
    /// or `None` where the platform gave no figure.
    CpuSampled(Option<u32>),
    /// The record's line was written in full.
    Sent,
    /// A read for the reply returned this many bytes; zero means that the
    /// collector closed the stream.
    ReplyRead(usize),
    /// The interval has passed.
    Woke,
    /// Connecting, writing or reading failed.
    Failed,
}

/// What the agent asks of its driver next.
#[derive(Debug, PartialEq, Eq)]
pub enum AgentAction {
    /// Measure the CPU load over the given window, away from the path that
    /// serves the connection, and report `CpuSampled`.
    SampleCpu { window_secs: u64 },
    /// Encode the record, write it as one line, and report `Sent`.
    Send(SystemMetrics),
    /// Read one line of reply and report `ReplyRead`.
    AwaitReply,
    /// Sleep for the given time and report `Woke`.
    Sleep { secs: u64 },
    /// Give up: the connection is lost and is not made again.
    Abort,
}

/// The phase that follows `phase` on `event`. The cycle runs while every
/// step succeeds; a failure, a closed stream, or an event that the phase
/// does not wait for stops the agent for good.
pub open spec fn next_phase(phase: AgentPhase, event: AgentEvent) -> AgentPhase {
    match (phase, event) {
        (AgentPhase::Connecting, AgentEvent::Connected) => AgentPhase::Sampling,
        (AgentPhase::Sampling, AgentEvent::CpuSampled(_)) => AgentPhase::Sending,
        (AgentPhase::Sending, AgentEvent::Sent) => AgentPhase::AwaitingAck,
        (AgentPhase::AwaitingAck, AgentEvent::ReplyRead(bytes_read)) => if bytes_read > 0 {
            AgentPhase::Sleeping
        } else {
            AgentPhase::Stopped
        },
        (AgentPhase::Sleeping, AgentEvent::Woke) => AgentPhase::Sampling,
        _ => AgentPhase::Stopped,
    }
}

/// Whether `action` is what an agent for `hostname` asks on entering `phase`
/// after `event`.
pub open spec fn asks(
    action: AgentAction,
    phase: AgentPhase,
    event: AgentEvent,
    hostname: Seq<char>,
) -> bool {
    match phase {
        AgentPhase::Sampling => action == (AgentAction::SampleCpu { window_secs: CPU_WINDOW_SECS }),
        AgentPhase::Sending => {
            &&& action matches AgentAction::Send(record)
            &&& event matches AgentEvent::CpuSampled(cpu)
            &&& sampled(record@, hostname, cpu)
        },
        AgentPhase::AwaitingAck => action == AgentAction::AwaitReply,
        AgentPhase::Sleeping => action == (AgentAction::Sleep { secs: INTERVAL_SECS }),
        AgentPhase::Stopped | AgentPhase::Connecting => action == AgentAction::Abort,
    }
}

/// `gethostname::gethostname`: the name of this machine as the operating
/// system gives it, with whatever is not UTF-8 replaced. The name is the
/// machine's, so nothing is claimed of it. The outside function panics if the
/// operating system refuses the query.
#[verifier::external_body]
fn local_hostname() -> (name: String) {
    gethostname::gethostname().to_string_lossy().to_string()
}

/// An agent for one host.
pub struct Agent {
    hostname: String,
    phase: AgentPhase,
}

impl Agent {
    /// The host that the agent reports for.
    pub closed spec fn hostname(&self) -> Seq<char> {
        self.hostname@
    }

    /// What the agent is waiting for.
    pub closed spec fn phase(&self) -> AgentPhase {
        self.phase
    }

    /// An agent that reports for `hostname`. It waits for its driver to
    /// connect to the collector.
    pub fn new(hostname: String) -> (agent: Agent)
        ensures
            agent.hostname() == hostname@,
            agent.phase() == AgentPhase::Connecting,
    {
        Agent { hostname, phase: AgentPhase::Connecting }
    }

    /// An agent that reports for this machine, under the name that the
    /// operating system gives it.
    pub fn for_local_host() -> (agent: Agent)
        ensures
            agent.phase() == AgentPhase::Connecting,
    {
        Agent::new(local_hostname())
    }

    /// The host that the agent reports for.
    pub fn name(&self) -> (name: &str)
        ensures
            name@ == self.hostname(),
    {
        self.hostname.as_str()
    }

    /// What the agent is waiting for.
    pub fn waiting_for(&self) -> (phase: AgentPhase)
        ensures
            phase == self.phase(),
    {
        self.phase
    }

    /// Takes the driver's report and says what to do next.
    ///
    /// On a finished CPU measurement the agent samples memory and disk from
    /// `system` and hands out the record to send; a subsystem that gives no
    /// figure is reported as zero and the cycle goes on.
    pub fn step(&mut self, system: &System, event: AgentEvent) -> (action: AgentAction)
        ensures
            final(self).hostname() == old(self).hostname(),
            final(self).phase() == next_phase(old(self).phase(), event),
            asks(action, final(self).phase(), event, old(self).hostname()),
    {
        match (self.phase, event) {
            (AgentPhase::Connecting, AgentEvent::Connected) => {
                self.phase = AgentPhase::Sampling;
                AgentAction::SampleCpu { window_secs: CPU_WINDOW_SECS }
            },
            (AgentPhase::Sampling, AgentEvent::CpuSampled(cpu)) => {
                self.phase = AgentPhase::Sending;
                AgentAction::Send(collect_metrics(system, self.hostname.as_str(), cpu))
            },
            (AgentPhase::Sending, AgentEvent::Sent) => {
                self.phase = AgentPhase::AwaitingAck;
                AgentAction::AwaitReply
            },
            (AgentPhase::AwaitingAck, AgentEvent::ReplyRead(bytes_read)) => {
                if bytes_read > 0 {
                    self.phase = AgentPhase::Sleeping;
                    AgentAction::Sleep { secs: INTERVAL_SECS }
                } else {
                    self.phase = AgentPhase::Stopped;
                    AgentAction::Abort
                }
            },
            (AgentPhase::Sleeping, AgentEvent::Woke) => {
                self.phase = AgentPhase::Sampling;
                AgentAction::SampleCpu { window_secs: CPU_WINDOW_SECS }
            },
            _ => {
                self.phase = AgentPhase::Stopped;
                AgentAction::Abort
            },
        }
    }
}

/// While every step succeeds the agent never stops: a sample, a written
/// line, a reply and a sleep bring it back to sampling.
pub proof fn lemma_cycle(cpu: Option<u32>, bytes_read: usize)
    requires
        bytes_read > 0,
    ensures
        next_phase(AgentPhase::Connecting, AgentEvent::Connected) == AgentPhase::Sampling,
        next_phase(
            next_phase(
                next_phase(
                    next_phase(AgentPhase::Sampling, AgentEvent::CpuSampled(cpu)),
                    AgentEvent::Sent,
                ),
                AgentEvent::ReplyRead(bytes_read),
            ),
            AgentEvent::Woke,
        ) == AgentPhase::Sampling,
{
}

/// The exchange is in lock step: every phase of the cycle is entered from
/// the one before it and on its own event, so that no record is sent before
/// the reply to the last one was read and the interval has passed.
pub proof fn lemma_lock_step(phase: AgentPhase, event: AgentEvent)
    ensures
        next_phase(phase, event) == AgentPhase::Sampling ==> {
            ||| phase == AgentPhase::Connecting && event == AgentEvent::Connected
            ||| phase == AgentPhase::Sleeping && event == AgentEvent::Woke
        },
        next_phase(phase, event) == AgentPhase::Sending ==> {
            &&& phase == AgentPhase::Sampling
            &&& event is CpuSampled
        },
        next_phase(phase, event) == AgentPhase::AwaitingAck ==> {
            &&& phase == AgentPhase::Sending
            &&& event == AgentEvent::Sent
        },
        next_phase(phase, event) == AgentPhase::Sleeping ==> {
            &&& phase == AgentPhase::AwaitingAck
            &&& event matches AgentEvent::ReplyRead(bytes_read)
            &&& bytes_read > 0
        },
        next_phase(phase, event) != AgentPhase::Connecting,
{
}

/// A stopped agent stays stopped; a failure stops the agent wherever it
/// stands, and so does a stream that closes in place of a reply.
pub proof fn lemma_failure_is_final(phase: AgentPhase, event: AgentEvent)
    ensures
        next_phase(AgentPhase::Stopped, event) == AgentPhase::Stopped,
        next_phase(phase, AgentEvent::Failed) == AgentPhase::Stopped,
        next_phase(AgentPhase::AwaitingAck, AgentEvent::ReplyRead(0)) == AgentPhase::Stopped,
{
}

} // verus!
