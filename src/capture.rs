//! The decisions of one per-interface capture worker: what to do with each
//! read, and the packet counter that the worker keeps for itself.
use vstd::prelude::*;

use crate::layers::{check_all_layers, chain_spec, layers_view, packet_accepted_spec, Layer};
use crate::protocols::Protocol;
use crate::texts;

verus! {

/// The filters of a capture, built once and shared read-only by every
/// worker.
pub struct FilterConfig {
    pub protocols: Vec<Protocol>,
    pub ips: Vec<String>,
    pub ports: Vec<u16>,
}

/// The state of the worker of one interface.
pub struct CaptureSession {
    pub interface: String,
    pub packet_counter: usize,
}

/// The content of a [`CaptureSession`].
pub struct SessionView {
    pub interface: Seq<char>,
    pub counter: nat,
}

impl View for CaptureSession {
    type V = SessionView;

    open spec fn view(&self) -> SessionView {
        SessionView { interface: self.interface@, counter: self.packet_counter as nat }
    }
}

/// What one blocking read of the capture channel gave.
pub enum CaptureEvent {
    /// A frame, as the capture mechanism delivered it.
    Frame(Vec<u8>),
    /// The read failed; the next read waits for new data.
    ReadError,
}

/// What the worker does after a read.
pub enum CaptureAction {
    /// Hand the chain of an accepted packet to the output, with its number
    /// and the name of the interface.
    Report { packet_id: usize, interface: String, chain: Vec<Layer> },
    /// Tell the user that a read failed, and go on.
    ReportReadError { interface: String },
    /// The packet was rejected or unrecognised: nothing is shown.
    Skip,
}

/// The session of an interface whose worker has not read anything yet.
pub open spec fn fresh(interface: Seq<char>) -> SessionView {
    SessionView { interface, counter: 0 }
}

/// The session after one read: every read, good or bad, takes a number.
pub open spec fn after_read(s: SessionView) -> SessionView {
    SessionView { interface: s.interface, counter: s.counter + 1 }
}

impl CaptureSession {
    /// The session of a worker that starts on `interface`.
    pub fn new(interface: String) -> (s: CaptureSession)
        ensures
            s@ == fresh(interface@),
    {
        CaptureSession { interface, packet_counter: 0 }
    }

    /// Decides what to do with one read, and numbers it.
    pub fn handle(&mut self, event: CaptureEvent, config: &FilterConfig) -> (a: CaptureAction)
        requires
            old(self).packet_counter < usize::MAX,
        ensures
            final(self)@ == after_read(old(self)@),
            match event {
                CaptureEvent::ReadError => a matches CaptureAction::ReportReadError { interface } && interface@
                    == old(self).interface@,
                CaptureEvent::Frame(frame) => {
                    let chain = chain_spec(frame@, texts(config.ips@), config.ports@);
                    if packet_accepted_spec(chain, config.protocols@, texts(config.ips@), config.ports@) {
                        &&& a matches CaptureAction::Report { packet_id, interface, chain: c }
                        &&& packet_id == old(self).packet_counter
                        &&& interface@ == old(self).interface@
                        &&& layers_view(c@) == chain
                    } else {
                        a is Skip
                    }
                },
            },
    {
        let packet_id = self.packet_counter;
        self.packet_counter = self.packet_counter + 1;
        match event {
            CaptureEvent::ReadError => CaptureAction::ReportReadError { interface: self.interface.clone() },
            CaptureEvent::Frame(frame) => {
                match check_all_layers(frame.as_slice(), &config.protocols, &config.ips, &config.ports) {
                    Some(chain) => CaptureAction::Report { packet_id, interface: self.interface.clone(), chain },
                    None => CaptureAction::Skip,
                }
            },
        }
    }
}

/// The session after `n` reads.
pub open spec fn after_reads(s: SessionView, n: nat) -> SessionView
    decreases n,
{
    if n == 0 {
        s
    } else {
        after_read(after_reads(s, (n - 1) as nat))
    }
}

/// How many reads of `schedule` went to the second worker (`true`) or to
/// the first (`false`).
pub open spec fn reads_of(schedule: Seq<bool>, second: bool) -> nat
    decreases schedule.len(),
{
    if schedule.len() == 0 {
        0
    } else {
        reads_of(schedule.drop_last(), second) + if schedule.last() == second {
            1nat
        } else {
            0nat
        }
    }
}

/// Two workers that run side by side: `schedule[k]` says which of them
/// made the `k`-th read overall, `false` for the first, `true` for the
/// second; each read changes the session of its own worker only.
pub open spec fn run_pair(a: SessionView, b: SessionView, schedule: Seq<bool>) -> (SessionView, SessionView)
    decreases schedule.len(),
{
    if schedule.len() == 0 {
        (a, b)
    } else {
        let (x, y) = run_pair(a, b, schedule.drop_last());
        if schedule.last() {
            (x, after_read(y))
        } else {
            (after_read(x), y)
        }
    }
}

/// The counter of a session counts its own reads from where it stood.
pub proof fn lemma_counter_counts_reads(s: SessionView, n: nat)
    ensures
        after_reads(s, n).counter == s.counter + n,
        after_reads(s, n).interface == s.interface,
    decreases n,
{
    if n > 0 {
        lemma_counter_counts_reads(s, (n - 1) as nat);
    }
}

/// Two workers on two distinct interfaces keep independent counters that
/// start at 0: however their reads interleave, each ends where it would
/// have ended alone, its counter equal to the number of its own reads.
pub proof fn lemma_workers_independent(first: Seq<char>, second: Seq<char>, schedule: Seq<bool>)
    requires
        first != second,
    ensures
        fresh(first).counter == 0,
        fresh(second).counter == 0,
        run_pair(fresh(first), fresh(second), schedule) == (
            after_reads(fresh(first), reads_of(schedule, false)),
            after_reads(fresh(second), reads_of(schedule, true)),
        ),
        run_pair(fresh(first), fresh(second), schedule).0.counter == reads_of(schedule, false),
        run_pair(fresh(first), fresh(second), schedule).1.counter == reads_of(schedule, true),
    decreases schedule.len(),
{
    if schedule.len() > 0 {
        lemma_workers_independent(first, second, schedule.drop_last());
        let nf = reads_of(schedule.drop_last(), false);
        let ns = reads_of(schedule.drop_last(), true);
        if schedule.last() {
            assert(reads_of(schedule, true) == ns + 1);
            assert(reads_of(schedule, false) == nf);
        } else {
            assert(reads_of(schedule, true) == ns);
            assert(reads_of(schedule, false) == nf + 1);
        }
    }
    lemma_counter_counts_reads(fresh(first), reads_of(schedule, false));
    lemma_counter_counts_reads(fresh(second), reads_of(schedule, true));
}

} // verus!
