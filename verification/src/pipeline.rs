use vstd::prelude::*;

use crate::channel::SampleChannel;
use crate::sample::{all_in_range, lemma_all_in_range_push, sample_in_range};
use crate::window::{lemma_win_push_in_range, win_push, win_push_all, SlidingWindow};

verus! {

/// Which hardware source a capture binding is opened against.
#[derive(Clone, Copy, Debug, PartialEq, Eq, Structural)]
pub enum SourceId {
    Microphone,
    SystemOutput,
}

/// Which of the three logical windows a snapshot selects.
#[derive(Clone, Copy, Debug, PartialEq, Eq, Structural)]
pub enum StreamId {
    Microphone,
    SystemOutput,
    Residual,
}

/// Why opening a capture binding failed. Construction-time failures are
/// reported to the immediate caller and never corrupt a running binding.
#[derive(Clone, Copy, Debug, PartialEq, Eq, Structural)]
pub enum DeviceError {
    /// No default device of the requested kind exists.
    DeviceUnavailable,
    /// The backend cannot negotiate a usable stream configuration.
    ConfigurationNegotiationFailure,
    /// The backend rejected stream creation (busy device, unsupported format).
    StreamConstructionFailure,
}

/// The source a swap away from `s` targets.
pub open spec fn other_source(s: SourceId) -> SourceId {
    match s {
        SourceId::Microphone => SourceId::SystemOutput,
        SourceId::SystemOutput => SourceId::Microphone,
    }
}

/// The credential a capture binding holds for delivering samples. A token is
/// honoured only while its binding is the live one for its source; once the
/// binding has been replaced, sends with the old token are silently
/// discarded, which is how a callback racing with teardown is tolerated.
#[derive(Clone, Copy, Debug, PartialEq, Eq, Structural)]
pub struct SenderToken {
    pub source: SourceId,
    pub id: u64,
}

/// The residual derived for a microphone sample `m` against the
/// system-output window contents `sys`: `m` minus the oldest buffered
/// system-output sample, or `m` unchanged when none is buffered. This is a
/// deliberate, non-time-aligned approximation.
pub open spec fn residual_of(m: i64, sys: Seq<i64>) -> int {
    if sys.len() == 0 {
        m as int
    } else {
        m - sys[0]
    }
}

/// Microphone-side drain: for each pending microphone sample in order, push
/// it into the microphone window and push its residual (computed against the
/// fixed system-output window contents `sys_w`) into the residual window.
/// Returns the final (microphone window, residual window) contents.
pub open spec fn mic_drain(
    mic_w: Seq<i64>,
    res_w: Seq<i64>,
    sys_w: Seq<i64>,
    cap: nat,
    pending: Seq<i64>,
) -> (Seq<i64>, Seq<i64>)
    decreases pending.len(),
{
    if pending.len() == 0 {
        (mic_w, res_w)
    } else {
        mic_drain(
            win_push(mic_w, cap, pending[0]),
            win_push(res_w, cap, residual_of(pending[0], sys_w) as i64),
            sys_w,
            cap,
            pending.drop_first(),
        )
    }
}

/// Law: when the system-output window is empty at the moment a microphone
/// sample is drained, the residual equals that sample exactly.
pub proof fn lemma_residual_identity_when_no_system_output(m: i64, sys: Seq<i64>)
    requires
        sys.len() == 0,
    ensures
        residual_of(m, sys) == m,
{
}

/// Law: when the system-output window is non-empty at the moment a
/// microphone sample is drained, the residual equals the sample minus the
/// oldest sample currently resident in the system-output window.
pub proof fn lemma_residual_subtracts_oldest(m: i64, sys: Seq<i64>)
    requires
        sys.len() > 0,
    ensures
        residual_of(m, sys) == m - sys[0],
{
}

/// Law: a tick that finds both channels empty is a no-op: draining empty
/// pending sequences leaves the contents of all three windows unchanged.
pub proof fn lemma_tick_empty_is_noop(sys_w: Seq<i64>, mic_w: Seq<i64>, res_w: Seq<i64>, cap: nat)
    ensures
        win_push_all(sys_w, cap, Seq::<i64>::empty()) == sys_w,
        mic_drain(mic_w, res_w, sys_w, cap, Seq::<i64>::empty()) == (mic_w, res_w),
{
}

/// The residual for microphone sample `m` given the current system-output
/// window: `m - head` when a head sample exists, `m` otherwise.
pub fn residual_sample(m: i64, sys: &SlidingWindow) -> (r: i64)
    requires
        sample_in_range(m),
        sys@.len() > 0 ==> sample_in_range(sys@[0]),
    ensures
        r == residual_of(m, sys@),
{
    match sys.head() {
        None => m,
        Some(h) => m - h,
    }
}

/// The consumer-side core of the capture pipeline: one channel and one
/// window per hardware source, plus the derived residual window. All its
/// state is mutated only by its single owner; hardware callbacks reach it
/// exclusively through channel sends.
pub struct AudioCore {
    sys_channel: SampleChannel,
    mic_channel: SampleChannel,
    sys_window: SlidingWindow,
    mic_window: SlidingWindow,
    res_window: SlidingWindow,
    current: SourceId,
    playing: bool,
    sys_epoch: u64,
    mic_epoch: u64,
}

impl AudioCore {
    /// Samples queued on the channel of `source`, oldest first.
    pub closed spec fn pending_of(&self, source: SourceId) -> Seq<i64> {
        match source {
            SourceId::Microphone => self.mic_channel@,
            SourceId::SystemOutput => self.sys_channel@,
        }
    }

    /// Contents of the window `stream` selects, oldest first.
    pub closed spec fn window_of(&self, stream: StreamId) -> Seq<i64> {
        match stream {
            StreamId::Microphone => self.mic_window@,
            StreamId::SystemOutput => self.sys_window@,
            StreamId::Residual => self.res_window@,
        }
    }

    /// The shared capacity bound N of the three windows.
    pub closed spec fn spec_capacity(&self) -> nat {
        self.sys_window.spec_capacity()
    }

    /// Identity of the switchable capture binding currently in place.
    pub closed spec fn spec_current(&self) -> SourceId {
        self.current
    }

    /// Whether hardware delivery has been started.
    pub closed spec fn spec_playing(&self) -> bool {
        self.playing
    }

    /// The epoch of the live binding for `source`; a token is honoured only
    /// while its id equals this.
    pub closed spec fn spec_epoch(&self, source: SourceId) -> u64 {
        match source {
            SourceId::Microphone => self.mic_epoch,
            SourceId::SystemOutput => self.sys_epoch,
        }
    }

    /// Whether a send with this token would be honoured now.
    pub open spec fn token_valid(&self, t: SenderToken) -> bool {
        t.id == self.spec_epoch(t.source)
    }

    /// Well-formed: the three windows share one positive capacity and none
    /// exceeds it, and every queued or buffered capture sample is small
    /// enough for residual subtraction.
    pub closed spec fn wf(&self) -> bool {
        &&& self.sys_window.wf()
        &&& self.mic_window.wf()
        &&& self.res_window.wf()
        &&& self.mic_window.spec_capacity() == self.sys_window.spec_capacity()
        &&& self.res_window.spec_capacity() == self.sys_window.spec_capacity()
        &&& all_in_range(self.sys_channel@)
        &&& all_in_range(self.mic_channel@)
        &&& all_in_range(self.sys_window@)
    }

    /// A core with empty channels and windows of capacity `cap`, whose
    /// switchable binding is bound to `initial` and not yet started.
    pub fn new(cap: usize, initial: SourceId) -> (c: AudioCore)
        requires
            cap >= 1,
        ensures
            c.wf(),
            c.spec_capacity() == cap as nat,
            c.pending_of(SourceId::Microphone) == Seq::<i64>::empty(),
            c.pending_of(SourceId::SystemOutput) == Seq::<i64>::empty(),
            c.window_of(StreamId::Microphone) == Seq::<i64>::empty(),
            c.window_of(StreamId::SystemOutput) == Seq::<i64>::empty(),
            c.window_of(StreamId::Residual) == Seq::<i64>::empty(),
            c.spec_current() == initial,
            !c.spec_playing(),
    {
        AudioCore {
            sys_channel: SampleChannel::new(),
            mic_channel: SampleChannel::new(),
            sys_window: SlidingWindow::new(cap),
            mic_window: SlidingWindow::new(cap),
            res_window: SlidingWindow::new(cap),
            current: initial,
            playing: false,
            sys_epoch: 0,
            mic_epoch: 0,
        }
    }

    /// The token the live binding for `source` delivers with.
    pub fn sender_token(&self, source: SourceId) -> (t: SenderToken)
        ensures
            t.source == source,
            self.token_valid(t),
    {
        let id = match source {
            SourceId::Microphone => self.mic_epoch,
            SourceId::SystemOutput => self.sys_epoch,
        };
        SenderToken { source, id }
    }

    /// Identity of the source currently bound.
    pub fn current_source(&self) -> (s: SourceId)
        ensures
            s == self.spec_current(),
    {
        self.current
    }

    /// Whether hardware delivery has been started.
    pub fn is_playing(&self) -> (p: bool)
        ensures
            p == self.spec_playing(),
    {
        self.playing
    }

    /// The shared window capacity N.
    pub fn capacity(&self) -> (n: usize)
        ensures
            n as nat == self.spec_capacity(),
    {
        self.sys_window.capacity()
    }

    /// Record that hardware delivery has begun. Safe to call again on a
    /// binding that is already playing; nothing else changes.
    pub fn start(&mut self)
        requires
            old(self).wf(),
        ensures
            final(self).wf(),
            final(self).spec_playing(),
            final(self).spec_current() == old(self).spec_current(),
            final(self).spec_capacity() == old(self).spec_capacity(),
            forall|src: SourceId| final(self).pending_of(src) == old(self).pending_of(src),
            forall|st: StreamId| final(self).window_of(st) == old(self).window_of(st),
            forall|src: SourceId| final(self).spec_epoch(src) == old(self).spec_epoch(src),
    {
        self.playing = true;
    }

    /// Deliver one captured sample. Honoured only when the token still
    /// belongs to the live binding for its source: a send from a binding
    /// that has since been replaced is silently discarded, never an error.
    /// Never blocks and never fails observably to the caller.
    pub fn send_sample(&mut self, token: SenderToken, s: i64)
        requires
            old(self).wf(),
            sample_in_range(s),
        ensures
            final(self).wf(),
            old(self).token_valid(token) ==> final(self).pending_of(token.source) == old(self).pending_of(token.source).push(s) && final(self).pending_of(
                other_source(token.source),
            ) == old(self).pending_of(other_source(token.source)),
            !old(self).token_valid(token) ==> *final(self) == *old(self),
            forall|st: StreamId| final(self).window_of(st) == old(self).window_of(st),
            final(self).spec_current() == old(self).spec_current(),
            final(self).spec_playing() == old(self).spec_playing(),
            final(self).spec_capacity() == old(self).spec_capacity(),
            forall|src: SourceId| final(self).spec_epoch(src) == old(self).spec_epoch(src),
    {
        let honoured = match token.source {
            SourceId::Microphone => token.id == self.mic_epoch,
            SourceId::SystemOutput => token.id == self.sys_epoch,
        };
        if honoured {
            match token.source {
                SourceId::Microphone => {
                    proof {
                        lemma_all_in_range_push(self.mic_channel@, s);
                    }
                    self.mic_channel.send(s);
                },
                SourceId::SystemOutput => {
                    proof {
                        lemma_all_in_range_push(self.sys_channel@, s);
                    }
                    self.sys_channel.send(s);
                },
            }
        }
    }

    /// One drain/tick cycle, run once per presentation refresh: first every
    /// pending system-output sample moves into the system-output window, then
    /// every pending microphone sample moves into the microphone window and
    /// deposits its residual — computed against the system-output window as
    /// updated by this same cycle — into the residual window. Never blocks;
    /// with both channels empty it changes nothing.
    pub fn tick(&mut self)
        requires
            old(self).wf(),
        ensures
            final(self).wf(),
            final(self).pending_of(SourceId::Microphone).len() == 0,
            final(self).pending_of(SourceId::SystemOutput).len() == 0,
            final(self).window_of(StreamId::SystemOutput) == win_push_all(
                old(self).window_of(StreamId::SystemOutput),
                old(self).spec_capacity(),
                old(self).pending_of(SourceId::SystemOutput),
            ),
            ({
                let (mic_w, res_w) = mic_drain(
                    old(self).window_of(StreamId::Microphone),
                    old(self).window_of(StreamId::Residual),
                    final(self).window_of(StreamId::SystemOutput),
                    old(self).spec_capacity(),
                    old(self).pending_of(SourceId::Microphone),
                );
                final(self).window_of(StreamId::Microphone) == mic_w && final(self).window_of(
                    StreamId::Residual,
                ) == res_w
            }),
            final(self).spec_current() == old(self).spec_current(),
            final(self).spec_playing() == old(self).spec_playing(),
            final(self).spec_capacity() == old(self).spec_capacity(),
            forall|src: SourceId| final(self).spec_epoch(src) == old(self).spec_epoch(src),
    {
        drain_into(&mut self.sys_channel, &mut self.sys_window);
        drain_mic_into(
            &mut self.mic_channel,
            &mut self.mic_window,
            &mut self.res_window,
            &self.sys_window,
        );
    }

    /// The source a successful swap would bind next.
    pub fn switch_target(&self) -> (t: SourceId)
        ensures
            t == other_source(self.spec_current()),
    {
        match self.current {
            SourceId::Microphone => SourceId::SystemOutput,
            SourceId::SystemOutput => SourceId::Microphone,
        }
    }

    /// Commit or abandon a swap of the switchable capture binding, given the
    /// outcome of opening and starting a binding for the other source. On
    /// success the new source takes over with a fresh channel and a fresh
    /// token, and every token issued before — in particular the replaced
    /// binding's — is no longer honoured, so a callback racing with teardown
    /// can never deposit samples anywhere. On failure nothing changes: the
    /// prior binding remains active and playing.
    pub fn switch_source(&mut self, outcome: Result<(), DeviceError>) -> (r: Result<
        SenderToken,
        DeviceError,
    >)
        requires
            old(self).wf(),
        ensures
            final(self).wf(),
            outcome matches Err(e) ==> r == Err::<SenderToken, DeviceError>(e) && *final(self)
                == *old(self),
            outcome is Ok ==> {
                &&& final(self).spec_current() == other_source(old(self).spec_current())
                &&& r is Ok
                &&& (r matches Ok(t) ==> t.source == final(self).spec_current() && final(self).token_valid(t))
                &&& forall|t: SenderToken|
                    old(self).token_valid(t) ==> !final(self).token_valid(t)
                &&& final(self).pending_of(other_source(old(self).spec_current())) == Seq::<
                    i64,
                >::empty()
                &&& final(self).pending_of(old(self).spec_current()) == old(self).pending_of(
                    old(self).spec_current(),
                )
            },
            forall|st: StreamId| final(self).window_of(st) == old(self).window_of(st),
            final(self).spec_playing() == old(self).spec_playing(),
            final(self).spec_capacity() == old(self).spec_capacity(),
    {
        match outcome {
            Err(e) => Err(e),
            Ok(()) => {
                let target = match self.current {
                    SourceId::Microphone => SourceId::SystemOutput,
                    SourceId::SystemOutput => SourceId::Microphone,
                };
                match self.current {
                    SourceId::Microphone => {
                        self.mic_epoch = next_epoch(self.mic_epoch);
                    },
                    SourceId::SystemOutput => {
                        self.sys_epoch = next_epoch(self.sys_epoch);
                    },
                }
                let id = match target {
                    SourceId::Microphone => {
                        self.mic_epoch = next_epoch(self.mic_epoch);
                        self.mic_channel = SampleChannel::new();
                        self.mic_epoch
                    },
                    SourceId::SystemOutput => {
                        self.sys_epoch = next_epoch(self.sys_epoch);
                        self.sys_channel = SampleChannel::new();
                        self.sys_epoch
                    },
                };
                self.current = target;
                Ok(SenderToken { source: target, id })
            },
        }
    }

    /// The current contents of the selected window, oldest first, copied out
    /// for rendering; the core is not mutated.
    pub fn snapshot(&self, stream: StreamId) -> (v: Vec<i64>)
        ensures
            v@ == self.window_of(stream),
    {
        match stream {
            StreamId::Microphone => self.mic_window.snapshot(),
            StreamId::SystemOutput => self.sys_window.snapshot(),
            StreamId::Residual => self.res_window.snapshot(),
        }
    }
}

/// An epoch that no token minted under `e` matches.
fn next_epoch(e: u64) -> (r: u64)
    ensures
        r != e,
{
    if e == u64::MAX {
        0
    } else {
        e + 1
    }
}

/// Move every queued sample of `ch`, in order and one at a time, into `w`.
fn drain_into(ch: &mut SampleChannel, w: &mut SlidingWindow)
    requires
        old(w).wf(),
        all_in_range(old(ch)@),
        all_in_range(old(w)@),
    ensures
        final(w).wf(),
        final(w).spec_capacity() == old(w).spec_capacity(),
        final(ch)@.len() == 0,
        final(w)@ == win_push_all(old(w)@, old(w).spec_capacity(), old(ch)@),
        all_in_range(final(w)@),
{
    let ghost cap = old(w).spec_capacity();
    loop
        invariant
            w.wf(),
            w.spec_capacity() == cap,
            all_in_range(ch@),
            all_in_range(w@),
            win_push_all(w@, cap, ch@) == win_push_all(old(w)@, cap, old(ch)@),
        ensures
            w.wf(),
            w.spec_capacity() == cap,
            all_in_range(w@),
            ch@.len() == 0,
            win_push_all(w@, cap, ch@) == win_push_all(old(w)@, cap, old(ch)@),
        decreases ch@.len(),
    {
        match ch.try_receive() {
            Some(s) => {
                proof {
                    lemma_win_push_in_range(w@, cap, s);
                }
                w.push(s);
            },
            None => {
                break ;
            },
        }
    }
}

/// Move every queued microphone sample of `ch`, in order and one at a time,
/// into `mic_w`, depositing each sample's residual against the fixed
/// system-output window `sys_w` into `res_w`.
fn drain_mic_into(
    ch: &mut SampleChannel,
    mic_w: &mut SlidingWindow,
    res_w: &mut SlidingWindow,
    sys_w: &SlidingWindow,
)
    requires
        old(mic_w).wf(),
        old(res_w).wf(),
        old(mic_w).spec_capacity() == old(res_w).spec_capacity(),
        all_in_range(old(ch)@),
        all_in_range(sys_w@),
    ensures
        final(mic_w).wf(),
        final(res_w).wf(),
        final(mic_w).spec_capacity() == old(mic_w).spec_capacity(),
        final(res_w).spec_capacity() == old(res_w).spec_capacity(),
        final(ch)@.len() == 0,
        ({
            let (m, r) = mic_drain(
                old(mic_w)@,
                old(res_w)@,
                sys_w@,
                old(mic_w).spec_capacity(),
                old(ch)@,
            );
            final(mic_w)@ == m && final(res_w)@ == r
        }),
{
    let ghost cap = old(mic_w).spec_capacity();
    loop
        invariant
            mic_w.wf(),
            res_w.wf(),
            mic_w.spec_capacity() == cap,
            res_w.spec_capacity() == cap,
            all_in_range(ch@),
            all_in_range(sys_w@),
            mic_drain(mic_w@, res_w@, sys_w@, cap, ch@) == mic_drain(
                old(mic_w)@,
                old(res_w)@,
                sys_w@,
                cap,
                old(ch)@,
            ),
        ensures
            mic_w.wf(),
            res_w.wf(),
            mic_w.spec_capacity() == cap,
            res_w.spec_capacity() == cap,
            ch@.len() == 0,
            mic_drain(mic_w@, res_w@, sys_w@, cap, ch@) == mic_drain(
                old(mic_w)@,
                old(res_w)@,
                sys_w@,
                cap,
                old(ch)@,
            ),
        decreases ch@.len(),
    {
        match ch.try_receive() {
            Some(m) => {
                let r = residual_sample(m, sys_w);
                proof {
                    assert(r == residual_of(m, sys_w@) as i64);
                }
                mic_w.push(m);
                res_w.push(r);
            },
            None => {
                break ;
            },
        }
    }
}

} // verus!
