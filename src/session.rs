use vstd::prelude::*;
use crate::error::RttError;
use crate::locate::{choose_strategy, strategy_for, LocateStrategy};
use crate::probe::{is_selection, opt_view, select_probe, ProbeDescriptor};

verus! {

/// The most bytes one read of an up channel returns.
pub const READ_CHUNK_SIZE: usize = 4096;

/// How long a halt after reset may take, in milliseconds.
pub const HALT_TIMEOUT_MS: u64 = 100;

/// A located and validated RTT control block.
#[derive(Clone, Copy, Debug, PartialEq, Eq, Structural)]
pub struct ControlBlock {
    /// Target-memory address of the control block.
    pub address: u64,
    /// Number of up (target to host) channels.
    pub up_channels: usize,
    /// Number of down (host to target) channels.
    pub down_channels: usize,
}

/// The logical state of a session.
pub ghost struct SessionView {
    pub chip: Seq<char>,
    pub probe_selector: Option<Seq<char>>,
    pub attached: bool,
    pub rtt: Option<ControlBlock>,
}

/// What happens to a session, as far as its state is concerned.
pub ghost enum SessionEvent {
    AttachSucceeded,
    AttachFailed,
    Detached,
    RttStarted(ControlBlock),
    RttStartFailed,
}

/// A session as created, detached and without RTT.
pub open spec fn fresh(chip: Seq<char>, probe_selector: Option<Seq<char>>) -> SessionView {
    SessionView { chip, probe_selector, attached: false, rtt: None }
}

/// RTT state exists only on an attached session.
pub open spec fn consistent(s: SessionView) -> bool {
    s.rtt is Some ==> s.attached
}

/// The state after one event.
///
/// A successful attach keeps any control block; detaching clears both the
/// link and the control block; RTT can only start on an attached session and
/// replaces the previous control block; failures change nothing.
pub open spec fn step(s: SessionView, e: SessionEvent) -> SessionView {
    match e {
        SessionEvent::AttachSucceeded => SessionView { attached: true, ..s },
        SessionEvent::AttachFailed => s,
        SessionEvent::Detached => SessionView { attached: false, rtt: None, ..s },
        SessionEvent::RttStarted(cb) => if s.attached {
            SessionView { rtt: Some(cb), ..s }
        } else {
            s
        },
        SessionEvent::RttStartFailed => s,
    }
}

/// The state after a sequence of events, oldest first.
pub open spec fn run(s: SessionView, events: Seq<SessionEvent>) -> SessionView
    decreases events.len(),
{
    if events.len() == 0 {
        s
    } else {
        step(run(s, events.drop_last()), events.last())
    }
}

/// Every event keeps a consistent state consistent.
pub proof fn lemma_step_consistent(s: SessionView, e: SessionEvent)
    requires
        consistent(s),
    ensures
        consistent(step(s, e)),
{
}

/// A session is attached after a history of events exactly when some attach
/// in it succeeded and no detach came after that attach. A fresh session is
/// therefore detached until an attach succeeds, and detached again right
/// after a detach; and its RTT state never outlives the link.
pub proof fn lemma_attached_iff_attach_not_undone(
    chip: Seq<char>,
    probe_selector: Option<Seq<char>>,
    events: Seq<SessionEvent>,
)
    ensures
        !fresh(chip, probe_selector).attached,
        run(fresh(chip, probe_selector), events).attached <==> exists|i: int|
            0 <= i < events.len() && #[trigger] events[i] == SessionEvent::AttachSucceeded
                && forall|j: int| i < j < events.len() ==> #[trigger] events[j] != SessionEvent::Detached,
        consistent(run(fresh(chip, probe_selector), events)),
    decreases events.len(),
{
    let s0 = fresh(chip, probe_selector);
    if events.len() > 0 {
        let prev = events.drop_last();
        let n = events.len() - 1;
        lemma_attached_iff_attach_not_undone(chip, probe_selector, prev);
        lemma_step_consistent(run(s0, prev), events.last());
        assert(forall|k: int| 0 <= k < n ==> prev[k] == events[k]);
        let last = events[n];
        if run(s0, events).attached {
            if last == SessionEvent::AttachSucceeded {
                assert(events[n] == SessionEvent::AttachSucceeded);
            } else {
                assert(last != SessionEvent::Detached);
                assert(run(s0, prev).attached);
                let i = choose|i: int|
                    0 <= i < prev.len() && #[trigger] prev[i] == SessionEvent::AttachSucceeded
                        && forall|j: int| i < j < prev.len() ==> #[trigger] prev[j] != SessionEvent::Detached;
                assert(events[i] == SessionEvent::AttachSucceeded);
                assert forall|j: int| i < j < events.len() implies #[trigger] events[j]
                    != SessionEvent::Detached by {
                    if j < n {
                        assert(prev[j] != SessionEvent::Detached);
                    }
                }
            }
        } else {
            assert forall|i: int|
                0 <= i < events.len() && #[trigger] events[i] == SessionEvent::AttachSucceeded implies !(
            forall|j: int| i < j < events.len() ==> #[trigger] events[j] != SessionEvent::Detached) by {
                if last == SessionEvent::Detached {
                    assert(i < n);
                    assert(events[n] == SessionEvent::Detached);
                } else {
                    assert(last != SessionEvent::AttachSucceeded);
                    assert(i < n);
                    assert(prev[i] == SessionEvent::AttachSucceeded);
                    let j = choose|j: int| i < j < prev.len() && #[trigger] prev[j] == SessionEvent::Detached;
                    assert(events[j] == SessionEvent::Detached);
                }
            }
        }
    }
}

/// Whether a channel may be accessed, checked before any hardware access.
pub open spec fn channel_access(s: SessionView, channel: usize, up: bool) -> Result<(), RttError> {
    if !s.attached {
        Err(RttError::NotAttached)
    } else if s.rtt is None {
        Err(RttError::RttNotStarted)
    } else if channel >= (if up {
        s.rtt.unwrap().up_channels
    } else {
        s.rtt.unwrap().down_channels
    }) {
        Err(RttError::ChannelNotFound(channel))
    } else {
        Ok(())
    }
}

/// The next step of a write that passed its checks.
#[derive(Clone, Copy, Debug, PartialEq, Eq, Structural)]
pub enum WriteStep {
    /// Nothing to transfer; the write is complete with this count.
    Done(usize),
    /// Hand the bytes to the down channel.
    Transfer,
}

/// A debug session with one target chip.
///
/// The session owns the logical link state and the active control block; the
/// caller performs each hardware transaction and reports its outcome here.
pub struct Session {
    chip: String,
    probe_selector: Option<String>,
    attached: bool,
    rtt: Option<ControlBlock>,
}

impl View for Session {
    type V = SessionView;

    closed spec fn view(&self) -> SessionView {
        SessionView {
            chip: self.chip@,
            probe_selector: opt_view(self.probe_selector),
            attached: self.attached,
            rtt: self.rtt,
        }
    }
}

impl Session {
    /// A detached session for `chip`, optionally restricted to probes matching
    /// `probe_selector`.
    pub fn new(chip: String, probe_selector: Option<String>) -> (s: Self)
        ensures
            s@ == fresh(chip@, opt_view(probe_selector)),
    {
        Session { chip, probe_selector, attached: false, rtt: None }
    }

    /// The chip this session targets.
    pub fn chip(&self) -> (r: String)
        ensures
            r@ == self@.chip,
    {
        self.chip.clone()
    }

    /// Whether the session is attached to its target.
    pub fn is_attached(&self) -> (r: bool)
        ensures
            r == self@.attached,
    {
        self.attached
    }

    /// Whether RTT has been started and its control block is active.
    pub fn is_rtt_active(&self) -> (r: bool)
        ensures
            r == self@.rtt is Some,
    {
        self.rtt.is_some()
    }

    /// The active control block, if RTT has been started.
    pub fn control_block(&self) -> (r: Option<ControlBlock>)
        ensures
            r == self@.rtt,
    {
        self.rtt
    }

    /// Picks which of the enumerated probes to open, by this session's
    /// selector (see `select_probe`).
    pub fn choose_probe(&self, probes: &Vec<ProbeDescriptor>) -> (r: Result<usize, RttError>)
        ensures
            is_selection(probes@, self@.probe_selector, r),
    {
        select_probe(probes, &self.probe_selector)
    }
    /// Records the outcome of opening the chosen probe and attaching to the
    /// chip (`Err` carries the hardware's cause).
    ///
    /// On success the session becomes attached; attaching again while
    /// attached replaces the link. On failure the state is unchanged and the
    /// error names the chip.
    pub fn finish_attach(&mut self, outcome: Result<(), String>) -> (r: Result<(), RttError>)
        ensures
            match outcome {
                Ok(()) => r is Ok && final(self)@ == step(old(self)@, SessionEvent::AttachSucceeded),
                Err(c) => final(self)@ == step(old(self)@, SessionEvent::AttachFailed) && (
                r matches Err(RttError::AttachFailure { chip, cause }) && chip@ == old(self)@.chip
                    && cause == c),
            },
    {
        match outcome {
            Ok(()) => {
                self.attached = true;
                Ok(())
            },
            Err(c) => Err(RttError::AttachFailure { chip: self.chip.clone(), cause: c }),
        }
    }

    /// Returns to the detached state, dropping the link and any control
    /// block. Always succeeds, also when already detached.
    pub fn detach(&mut self)
        ensures
            final(self)@ == step(old(self)@, SessionEvent::Detached),
    {
        self.attached = false;
        self.rtt = None;
    }

    /// Decides how the control block is located for "start RTT": an explicit
    /// address, else a symbol lookup in the debug-info file, else a memory
    /// scan. Fails with `NotAttached` on a detached session.
    pub fn begin_start_rtt(&self, explicit_address: Option<u64>, debug_info_path: Option<String>) -> (r:
        Result<LocateStrategy, RttError>)
        ensures
            !self@.attached ==> r == Err::<LocateStrategy, RttError>(RttError::NotAttached),
            self@.attached ==> r == Ok::<LocateStrategy, RttError>(
                strategy_for(explicit_address, debug_info_path),
            ),
    {
        if !self.attached {
            return Err(RttError::NotAttached);
        }
        Ok(choose_strategy(explicit_address, debug_info_path))
    }

    /// Records the outcome of validating the control block on the target.
    ///
    /// `address` is the address that was validated, or `None` after a memory
    /// scan. On success the control block replaces any earlier one and the
    /// number of up channels is returned. A failure at a known address is
    /// `ControlBlockInvalid`, a failed scan `ControlBlockNotFound`, and the
    /// state is unchanged.
    pub fn finish_start_rtt(&mut self, address: Option<u64>, outcome: Result<ControlBlock, String>) -> (r:
        Result<usize, RttError>)
        ensures
            !old(self)@.attached ==> r == Err::<usize, RttError>(RttError::NotAttached)
                && final(self)@ == old(self)@,
            old(self)@.attached ==> match outcome {
                Ok(cb) => r == Ok::<usize, RttError>(cb.up_channels) && final(self)@ == step(
                    old(self)@,
                    SessionEvent::RttStarted(cb),
                ),
                Err(c) => final(self)@ == step(old(self)@, SessionEvent::RttStartFailed) && match address {
                    Some(a) => r == Err::<usize, RttError>(
                        RttError::ControlBlockInvalid { address: a, cause: c },
                    ),
                    None => r == Err::<usize, RttError>(RttError::ControlBlockNotFound(c)),
                },
            },
    {
        if !self.attached {
            return Err(RttError::NotAttached);
        }
        match outcome {
            Ok(cb) => {
                self.rtt = Some(cb);
                Ok(cb.up_channels)
            },
            Err(c) => match address {
                Some(a) => Err(RttError::ControlBlockInvalid { address: a, cause: c }),
                None => Err(RttError::ControlBlockNotFound(c)),
            },
        }
    }

    /// Checks a channel access before any hardware is touched.
    fn check_channel(&self, channel: usize, up: bool) -> (r: Result<(), RttError>)
        ensures
            r == channel_access(self@, channel, up),
    {
        if !self.attached {
            return Err(RttError::NotAttached);
        }
        match self.rtt {
            None => Err(RttError::RttNotStarted),
            Some(cb) => {
                let count = if up {
                    cb.up_channels
                } else {
                    cb.down_channels
                };
                if channel >= count {
                    Err(RttError::ChannelNotFound(channel))
                } else {
                    Ok(())
                }
            },
        }
    }

    /// Checks a read of up channel `channel` and gives the most bytes that
    /// one read may return. On `Err` no hardware access may follow.
    pub fn begin_read(&self, channel: usize) -> (r: Result<usize, RttError>)
        ensures
            match channel_access(self@, channel, true) {
                Ok(()) => r == Ok::<usize, RttError>(READ_CHUNK_SIZE),
                Err(e) => r == Err::<usize, RttError>(e),
            },
    {
        match self.check_channel(channel, true) {
            Ok(()) => Ok(READ_CHUNK_SIZE),
            Err(e) => Err(e),
        }
    }

    /// Checks a write of `len` bytes to down channel `channel`. An empty write
    /// is complete at once with a count of 0; otherwise the bytes go to the
    /// channel. On `Err` no hardware access may follow.
    pub fn begin_write(&self, channel: usize, len: usize) -> (r: Result<WriteStep, RttError>)
        ensures
            match channel_access(self@, channel, false) {
                Ok(()) => r == Ok::<WriteStep, RttError>(
                    if len == 0 {
                        WriteStep::Done(0)
                    } else {
                        WriteStep::Transfer
                    },
                ),
                Err(e) => r == Err::<WriteStep, RttError>(e),
            },
    {
        match self.check_channel(channel, false) {
            Ok(()) => if len == 0 {
                Ok(WriteStep::Done(0))
            } else {
                Ok(WriteStep::Transfer)
            },
            Err(e) => Err(e),
        }
    }

    /// Checks that a reset may be issued.
    pub fn begin_reset(&self) -> (r: Result<(), RttError>)
        ensures
            self@.attached <==> r is Ok,
            !self@.attached ==> r == Err::<(), RttError>(RttError::NotAttached),
    {
        if self.attached {
            Ok(())
        } else {
            Err(RttError::NotAttached)
        }
    }
}

/// Turns the outcome of one non-blocking poll of an up channel into the bytes
/// read. `buffer` is what the poll filled and `outcome` the count it reported.
///
/// The bytes are the first `count` of the buffer. A count beyond the buffer
/// or beyond `READ_CHUNK_SIZE` cannot describe a real read and is reported as
/// `ReadFailed`, as is a failed poll. A count of 0 gives no bytes, which is
/// not an error.
pub fn finish_read(buffer: Vec<u8>, outcome: Result<usize, String>) -> (r: Result<Vec<u8>, RttError>)
    ensures
        match outcome {
            Ok(n) => if n <= buffer@.len() && n <= READ_CHUNK_SIZE {
                r matches Ok(v) && v@ == buffer@.take(n as int)
            } else {
                r matches Err(RttError::ReadFailed(_))
            },
            Err(c) => r == Err::<Vec<u8>, RttError>(RttError::ReadFailed(c)),
        },
        r matches Ok(v) ==> v@.len() <= READ_CHUNK_SIZE,
{
    match outcome {
        Ok(n) => {
            if n <= buffer.len() && n <= READ_CHUNK_SIZE {
                let mut v = buffer;
                v.truncate(n);
                Ok(v)
            } else {
                Err(RttError::ReadFailed(String::from_str("count reported beyond the read buffer")))
            }
        },
        Err(c) => Err(RttError::ReadFailed(c)),
    }
}

/// Turns the outcome of writing `len` bytes to a down channel into the count
/// written. A count beyond `len` cannot describe a real write and is reported
/// as `WriteFailed`, as is a failed write.
pub fn finish_write(len: usize, outcome: Result<usize, String>) -> (r: Result<usize, RttError>)
    ensures
        match outcome {
            Ok(n) => if n <= len {
                r == Ok::<usize, RttError>(n)
            } else {
                r matches Err(RttError::WriteFailed(_))
            },
            Err(c) => r == Err::<usize, RttError>(RttError::WriteFailed(c)),
        },
        r matches Ok(n) ==> n <= len,
{
    match outcome {
        Ok(n) => if n <= len {
            Ok(n)
        } else {
            Err(RttError::WriteFailed(String::from_str("count reported beyond the data written")))
        },
        Err(c) => Err(RttError::WriteFailed(c)),
    }
}

/// Turns the outcome of resetting the core into the next step: `Ok(true)`
/// when a halt must follow, `Ok(false)` when the reset is complete.
pub fn after_reset(halt: bool, outcome: Result<(), String>) -> (r: Result<bool, RttError>)
    ensures
        match outcome {
            Ok(()) => r == Ok::<bool, RttError>(halt),
            Err(c) => r == Err::<bool, RttError>(RttError::ResetFailed(c)),
        },
{
    match outcome {
        Ok(()) => Ok(halt),
        Err(c) => Err(RttError::ResetFailed(c)),
    }
}

/// Turns the outcome of halting the core, waited for at most
/// `HALT_TIMEOUT_MS`, into the result of the reset.
pub fn after_halt(outcome: Result<(), String>) -> (r: Result<(), RttError>)
    ensures
        match outcome {
            Ok(()) => r is Ok,
            Err(c) => r == Err::<(), RttError>(RttError::HaltTimeout(c)),
        },
{
    match outcome {
        Ok(()) => Ok(()),
        Err(c) => Err(RttError::HaltTimeout(c)),
    }
}

} // verus!
