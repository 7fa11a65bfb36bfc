//! The capture and playback pipelines.
//!
//! Each pipeline is driven from outside by the audio subsystem: a callback
//! fires once per device buffer period.  The library holds the decision
//! each callback makes — what to send, what to write into the output
//! buffer, and when to stop — as functions from plain values to plain
//! values; the surrounding program performs the socket I/O and runs the
//! driving loops.

use crate::codec::{decode, encode, samples_of, wire_of, BYTES_PER_SAMPLE};
use crate::lifecycle::CancelToken;
use crate::wire::{deserialize_rtp_packet, serialize_rtp_packet, RtpPacket};
use vstd::prelude::*;

verus! {

/// The phase of one pipeline's driving loop.
#[derive(Clone, Copy, PartialEq, Eq, Structural, Debug)]
pub enum PipelinePhase {
    /// Not yet started.
    Idle,
    /// Streaming: callbacks do their work.
    Running,
    /// The run-state was observed as `Stopping`; the loop is about to exit.
    Draining,
    /// The loop has exited.  Terminal: no phase ever moves backward.
    Stopped,
}

/// How one callback invocation advances a pipeline's phase, given whether
/// the shared run-state still reads as running.
pub open spec fn phase_step(p: PipelinePhase, running: bool) -> PipelinePhase {
    match p {
        PipelinePhase::Idle => if running {
            PipelinePhase::Running
        } else {
            PipelinePhase::Stopped
        },
        PipelinePhase::Running => if running {
            PipelinePhase::Running
        } else {
            PipelinePhase::Draining
        },
        PipelinePhase::Draining => PipelinePhase::Stopped,
        PipelinePhase::Stopped => PipelinePhase::Stopped,
    }
}

/// Advance one pipeline's phase by one callback invocation.
pub fn next_phase(p: PipelinePhase, token: &CancelToken) -> (n: PipelinePhase)
    ensures
        n == phase_step(p, token.spec_running()),
{
    let running = token.is_running();
    match p {
        PipelinePhase::Idle => if running {
            PipelinePhase::Running
        } else {
            PipelinePhase::Stopped
        },
        PipelinePhase::Running => if running {
            PipelinePhase::Running
        } else {
            PipelinePhase::Draining
        },
        PipelinePhase::Draining => PipelinePhase::Stopped,
        PipelinePhase::Stopped => PipelinePhase::Stopped,
    }
}

/// How many samples playback copies: the shorter of the destination and
/// the decoded packet.
pub open spec fn fill_len(dst: int, src: int) -> int {
    if dst <= src {
        dst
    } else {
        src
    }
}

/// Copy decoded samples into the device's output buffer, up to the shorter
/// of the two lengths.  A longer source is silently truncated; a shorter
/// one leaves the tail of the destination as the device pre-filled it.
/// Never reads or writes out of bounds.
pub fn fill_from_samples(out: &mut Vec<i32>, samples: &Vec<i32>)
    ensures
        final(out)@.len() == old(out)@.len(),
        forall|i: int|
            0 <= i < fill_len(old(out)@.len() as int, samples@.len() as int)
                ==> final(out)@[i] == samples@[i],
        forall|i: int|
            fill_len(old(out)@.len() as int, samples@.len() as int) <= i < old(out)@.len()
                ==> final(out)@[i] == old(out)@[i],
{
    let n: usize = if out.len() <= samples.len() {
        out.len()
    } else {
        samples.len()
    };
    let mut i: usize = 0;
    while i < n
        invariant
            i <= n,
            n == fill_len(old(out)@.len() as int, samples@.len() as int),
            out@.len() == old(out)@.len(),
            n <= samples@.len(),
            forall|j: int| 0 <= j < i ==> out@[j] == samples@[j],
            forall|j: int| i <= j < out@.len() ==> out@[j] == old(out)@[j],
        decreases n - i,
    {
        out.set(i, samples[i]);
        i = i + 1;
    }
}

/// Overwrite the whole output buffer with silence.
pub fn fill_silence(out: &mut Vec<i32>)
    ensures
        final(out)@.len() == old(out)@.len(),
        forall|i: int| 0 <= i < final(out)@.len() ==> final(out)@[i] == 0i32,
{
    let mut i: usize = 0;
    while i < out.len()
        invariant
            i <= out@.len(),
            out@.len() == old(out)@.len(),
            forall|j: int| 0 <= j < i ==> out@[j] == 0i32,
        decreases out@.len() - i,
    {
        out.set(i, 0);
        i = i + 1;
    }
}

/// One capture callback: when the link is running, quantize the captured
/// buffer and frame it as the datagram to send to the peer; once shutdown
/// was signalled, drop the buffer and send nothing.
pub fn capture_callback(token: &CancelToken, buffer: &Vec<i32>) -> (r: Option<Vec<u8>>)
    ensures
        token.spec_running() ==> (r matches Some(data) && data@ == wire_of(buffer@)
            && data@.len() == buffer@.len() * BYTES_PER_SAMPLE),
        !token.spec_running() ==> r is None,
{
    if !token.is_running() {
        return None;
    }
    let packet = RtpPacket { payload: encode(buffer) };
    Some(serialize_rtp_packet(&packet))
}

/// One playback callback: when the link is running and a datagram arrived,
/// decode it and copy samples into the output buffer up to the shorter
/// length, leaving any remaining tail as the device pre-filled it; when
/// none arrived, degrade to silence rather than stall; once shutdown was
/// signalled, leave the buffer untouched.
pub fn playback_callback(token: &CancelToken, incoming: Option<&[u8]>, out: &mut Vec<i32>)
    ensures
        final(out)@.len() == old(out)@.len(),
        !token.spec_running() ==> final(out)@ == old(out)@,
        (token.spec_running() && incoming is None) ==> forall|i: int|
            0 <= i < final(out)@.len() ==> final(out)@[i] == 0i32,
        token.spec_running() ==> (incoming matches Some(data) ==> {
            let decoded = samples_of(data@);
            &&& forall|i: int|
                0 <= i < fill_len(old(out)@.len() as int, decoded.len() as int)
                    ==> final(out)@[i] == decoded[i]
            &&& forall|i: int|
                fill_len(old(out)@.len() as int, decoded.len() as int) <= i < old(out)@.len()
                    ==> final(out)@[i] == old(out)@[i]
        }),
{
    if !token.is_running() {
        return;
    }
    match incoming {
        None => fill_silence(out),
        Some(data) => {
            let packet = deserialize_rtp_packet(data);
            let decoded = decode(&packet.payload);
            fill_from_samples(out, &decoded);
        },
    }
}

/// The two pipelines' phases, side by side.  They share nothing but the
/// run-state: each tick touches its own phase only.
#[derive(Clone, Copy, PartialEq, Eq, Structural, Debug)]
pub struct DuplexLink {
    /// Phase of the capture-and-send pipeline.
    pub capture: PipelinePhase,
    /// Phase of the receive-and-play pipeline.
    pub playback: PipelinePhase,
}

/// The duplex state after one capture callback.
pub open spec fn duplex_capture_step(d: DuplexLink, running: bool) -> DuplexLink {
    DuplexLink { capture: phase_step(d.capture, running), playback: d.playback }
}

/// The duplex state after one playback callback.
pub open spec fn duplex_playback_step(d: DuplexLink, running: bool) -> DuplexLink {
    DuplexLink { capture: d.capture, playback: phase_step(d.playback, running) }
}

impl DuplexLink {
    /// A fresh link: neither pipeline has started.
    pub fn new() -> (d: DuplexLink)
        ensures
            d.capture == PipelinePhase::Idle,
            d.playback == PipelinePhase::Idle,
    {
        DuplexLink { capture: PipelinePhase::Idle, playback: PipelinePhase::Idle }
    }

    /// Advance the capture pipeline by one callback; the playback phase is
    /// left exactly as it was.
    pub fn capture_tick(&mut self, token: &CancelToken)
        ensures
            *final(self) == duplex_capture_step(*old(self), token.spec_running()),
            final(self).playback == old(self).playback,
    {
        self.capture = next_phase(self.capture, token);
    }

    /// Advance the playback pipeline by one callback; the capture phase is
    /// left exactly as it was.
    pub fn playback_tick(&mut self, token: &CancelToken)
        ensures
            *final(self) == duplex_playback_step(*old(self), token.spec_running()),
            final(self).capture == old(self).capture,
    {
        self.playback = next_phase(self.playback, token);
    }

    /// Both driving loops have exited.
    pub fn both_stopped(&self) -> (r: bool)
        ensures
            r == (self.capture == PipelinePhase::Stopped
                && self.playback == PipelinePhase::Stopped),
    {
        let c = match self.capture {
            PipelinePhase::Stopped => true,
            _ => false,
        };
        let p = match self.playback {
            PipelinePhase::Stopped => true,
            _ => false,
        };
        c && p
    }
}

/// Shutdown liveness: once shutdown has been signalled, a pipeline in any
/// phase reaches `Stopped` within two further callback invocations.
pub proof fn lemma_shutdown_liveness(token: CancelToken, p: PipelinePhase)
    requires
        !token.spec_running(),
    ensures
        phase_step(phase_step(p, token.spec_running()), token.spec_running())
            == PipelinePhase::Stopped,
{
}

/// Shutdown liveness for the whole link: once shutdown has been signalled,
/// two callbacks of each pipeline leave both loops stopped.
pub proof fn lemma_duplex_shutdown(token: CancelToken, d: DuplexLink)
    requires
        !token.spec_running(),
    ensures
        ({
            let r = token.spec_running();
            let a = duplex_playback_step(
                duplex_capture_step(duplex_playback_step(duplex_capture_step(d, r), r), r),
                r,
            );
            a.capture == PipelinePhase::Stopped && a.playback == PipelinePhase::Stopped
        }),
{
}

/// The position of a phase along a pipeline's life: later phases have
/// higher rank.
pub open spec fn phase_rank(p: PipelinePhase) -> int {
    match p {
        PipelinePhase::Idle => 0,
        PipelinePhase::Running => 1,
        PipelinePhase::Draining => 2,
        PipelinePhase::Stopped => 3,
    }
}

/// No pipeline ever moves backward: every callback keeps or advances the
/// phase, and `Stopped` is terminal.
pub proof fn lemma_phase_monotone(p: PipelinePhase, running: bool)
    ensures
        phase_rank(phase_step(p, running)) >= phase_rank(p),
        p == PipelinePhase::Stopped ==> phase_step(p, running) == PipelinePhase::Stopped,
{
}

/// Independence: a capture tick never moves the playback phase, a playback
/// tick never moves the capture phase, and the two ticks commute — so a
/// stall or failure in one path cannot block or corrupt the other's
/// progress through its own state machine.
pub proof fn lemma_pipeline_independence(d: DuplexLink, rc: bool, rp: bool)
    ensures
        duplex_capture_step(d, rc).playback == d.playback,
        duplex_playback_step(d, rp).capture == d.capture,
        duplex_playback_step(duplex_capture_step(d, rc), rp)
            == duplex_capture_step(duplex_playback_step(d, rp), rc),
{
}

} // verus!
