//! The descriptor adapter: what stands between a raw, non-blocking
//! descriptor and a cooperative scheduler.
//!
//! An [`AsyncNixFd`] follows one descriptor from the moment it is handed
//! over to the moment it is closed. Construction is a short exchange with
//! the operating system: the status flags are read, the non-blocking flag
//! is added and the word is written back, and only then is the descriptor
//! registered with the scheduler. Once registered, the adapter owns the
//! descriptor: it alone hands it out for closing, and it does so once.

use crate::flags::{holds_nonblock, nonblocking, nonblocking_flags};
use crate::poll::Turn;
use vstd::prelude::*;

verus! {

/// Where an adapter stands in its life.
#[derive(Debug, Clone, Copy, PartialEq, Eq)]
pub enum Phase {
    /// The status flags of the descriptor have been asked for.
    AwaitingFlags,
    /// The status word `flags` has been sent to the descriptor.
    AwaitingMode { flags: i32 },
    /// `flags` is installed, and the descriptor has been offered to the
    /// scheduler for registration.
    AwaitingRegistration { flags: i32 },
    /// Registered. The adapter owns the descriptor and serves reads and
    /// writes on it.
    Active { flags: i32 },
    /// Construction failed. The adapter never owned the descriptor, which
    /// stays with whoever offered it.
    Failed,
    /// Torn down. The descriptor has been handed out for closing.
    Closed,
}

/// What the operating system or the scheduler answered during
/// construction. `E` is the caller's error type.
#[derive(Debug, PartialEq, Eq)]
pub enum SetupEvent<E> {
    /// The status flags were read, or reading them failed.
    FlagsRead(Result<i32, E>),
    /// The new status word was installed, or installing it failed.
    ModeSet(Result<(), E>),
    /// The scheduler registered the descriptor, or refused it.
    Registered(Result<(), E>),
}

/// What construction asks for next.
#[derive(Debug, PartialEq, Eq)]
pub enum SetupStep<E> {
    /// Install this status word on the descriptor.
    SetFlags(i32),
    /// Register the descriptor with the scheduler.
    Register,
    /// The adapter is built and owns the descriptor.
    Ready,
    /// Construction is over; report this error.
    Fail(E),
}

/// An adapter as the contracts see it.
pub struct AdapterState {
    /// The descriptor that the adapter was made for.
    pub fd: i32,
    /// Where the adapter stands.
    pub phase: Phase,
}

/// The adapter for one raw descriptor.
#[derive(Debug)]
pub struct AsyncNixFd {
    fd: i32,
    phase: Phase,
}

impl View for AsyncNixFd {
    type V = AdapterState;

    closed spec fn view(&self) -> AdapterState {
        AdapterState { fd: self.fd, phase: self.phase }
    }
}

/// The status word that has been sent to the descriptor of an adapter in
/// `phase`, once one has been.
pub open spec fn mode_of(phase: Phase) -> Option<i32> {
    match phase {
        Phase::AwaitingMode { flags } => Some(flags),
        Phase::AwaitingRegistration { flags } => Some(flags),
        Phase::Active { flags } => Some(flags),
        _ => None,
    }
}

/// Whether construction in `phase` waits for `event`.
pub open spec fn expects<E>(phase: Phase, event: SetupEvent<E>) -> bool {
    match (phase, event) {
        (Phase::AwaitingFlags, SetupEvent::FlagsRead(_)) => true,
        (Phase::AwaitingMode { .. }, SetupEvent::ModeSet(_)) => true,
        (Phase::AwaitingRegistration { .. }, SetupEvent::Registered(_)) => true,
        _ => false,
    }
}

/// The phase that follows `phase` on `event`. An event that the phase does
/// not wait for changes nothing; an error ends construction.
pub open spec fn phase_after<E>(phase: Phase, event: SetupEvent<E>) -> Phase {
    match (phase, event) {
        (Phase::AwaitingFlags, SetupEvent::FlagsRead(Ok(bits))) => Phase::AwaitingMode {
            flags: nonblocking(bits),
        },
        (Phase::AwaitingFlags, SetupEvent::FlagsRead(Err(_))) => Phase::Failed,
        (Phase::AwaitingMode { flags }, SetupEvent::ModeSet(Ok(_))) => Phase::AwaitingRegistration {
            flags,
        },
        (Phase::AwaitingMode { .. }, SetupEvent::ModeSet(Err(_))) => Phase::Failed,
        (Phase::AwaitingRegistration { flags }, SetupEvent::Registered(Ok(_))) => Phase::Active {
            flags,
        },
        (Phase::AwaitingRegistration { .. }, SetupEvent::Registered(Err(_))) => Phase::Failed,
        _ => phase,
    }
}

/// What construction in `phase` asks for on `event`: nothing where the
/// phase does not wait for the event.
pub open spec fn step_after<E>(phase: Phase, event: SetupEvent<E>) -> Option<SetupStep<E>> {
    match (phase, event) {
        (Phase::AwaitingFlags, SetupEvent::FlagsRead(Ok(bits))) => Some(
            SetupStep::SetFlags(nonblocking(bits)),
        ),
        (Phase::AwaitingFlags, SetupEvent::FlagsRead(Err(error))) => Some(SetupStep::Fail(error)),
        (Phase::AwaitingMode { .. }, SetupEvent::ModeSet(Ok(_))) => Some(SetupStep::Register),
        (Phase::AwaitingMode { .. }, SetupEvent::ModeSet(Err(error))) => Some(
            SetupStep::Fail(error),
        ),
        (Phase::AwaitingRegistration { .. }, SetupEvent::Registered(Ok(_))) => Some(
            SetupStep::Ready,
        ),
        (Phase::AwaitingRegistration { .. }, SetupEvent::Registered(Err(error))) => Some(
            SetupStep::Fail(error),
        ),
        _ => None,
    }
}

/// The descriptor that tearing down an adapter hands out for closing: its
/// own, if the adapter owns it.
pub open spec fn released(state: AdapterState) -> Option<i32> {
    if state.phase is Active {
        Some(state.fd)
    } else {
        None
    }
}

/// The adapter after it has been torn down.
pub open spec fn torn_down(state: AdapterState) -> AdapterState {
    if state.phase is Active {
        AdapterState { fd: state.fd, phase: Phase::Closed }
    } else {
        state
    }
}

impl Phase {
    /// The phase that follows once the status word to install has been
    /// computed, and the request that goes with it: a phase that waits for
    /// the flags goes on to installing `flags`; any other phase stays and
    /// asks for nothing.
    pub fn install<E>(self, flags: i32) -> (next: (Phase, Option<SetupStep<E>>))
        ensures
            self is AwaitingFlags ==> next == (
                Phase::AwaitingMode { flags },
                Some(SetupStep::<E>::SetFlags(flags)),
            ),
            !(self is AwaitingFlags) ==> next == (self, None::<SetupStep<E>>),
    {
        match self {
            Phase::AwaitingFlags => (Phase::AwaitingMode { flags }, Some(SetupStep::SetFlags(flags))),
            _ => (self, None),
        }
    }
}

impl AsyncNixFd {
    /// No status word is sent to a descriptor, and none is kept, that lacks
    /// the non-blocking flag.
    #[verifier::type_invariant]
    spec fn mode_holds_nonblock(self) -> bool {
        mode_of(self.phase) matches Some(flags) ==> holds_nonblock(flags)
    }

    /// Starts an adapter for `fd`. The first thing it waits for is the
    /// status flags of the descriptor, which the caller reads and reports
    /// to [`AsyncNixFd::configure`].
    pub fn new(fd: i32) -> (adapter: AsyncNixFd)
        ensures
            adapter@ == (AdapterState { fd, phase: Phase::AwaitingFlags }),
    {
        AsyncNixFd { fd, phase: Phase::AwaitingFlags }
    }

    /// Takes construction one step on: records what the operating system
    /// or the scheduler answered, and says what to ask for next.
    ///
    /// Returns `None`, and leaves the adapter as it is, exactly when the
    /// adapter does not wait for `event`. The first error ends
    /// construction and comes back in `SetupStep::Fail`.
    pub fn configure<E>(&mut self, event: SetupEvent<E>) -> (step: Option<SetupStep<E>>)
        ensures
            final(self)@.fd == old(self)@.fd,
            final(self)@.phase == phase_after(old(self)@.phase, event),
            step == step_after(old(self)@.phase, event),
            step is Some <==> expects(old(self)@.phase, event),
            step matches Some(SetupStep::SetFlags(flags)) ==> holds_nonblock(flags),
    {
        proof {
            use_type_invariant(&*self);
        }
        match event {
            SetupEvent::FlagsRead(Ok(bits)) => {
                let flags: i32 = nonblocking_flags(bits);
                let (phase, step) = self.phase.install(flags);
                self.phase = phase;
                step
            },
            SetupEvent::FlagsRead(Err(error)) => {
                match self.phase {
                    Phase::AwaitingFlags => {
                        self.phase = Phase::Failed;
                        Some(SetupStep::Fail(error))
                    },
                    _ => None,
                }
            },
            SetupEvent::ModeSet(outcome) => {
                match self.phase {
                    Phase::AwaitingMode { flags } => match outcome {
                        Ok(_) => {
                            self.phase = Phase::AwaitingRegistration { flags };
                            Some(SetupStep::Register)
                        },
                        Err(error) => {
                            self.phase = Phase::Failed;
                            Some(SetupStep::Fail(error))
                        },
                    },
                    _ => None,
                }
            },
            SetupEvent::Registered(outcome) => {
                match self.phase {
                    Phase::AwaitingRegistration { flags } => match outcome {
                        Ok(_) => {
                            self.phase = Phase::Active { flags };
                            Some(SetupStep::Ready)
                        },
                        Err(error) => {
                            self.phase = Phase::Failed;
                            Some(SetupStep::Fail(error))
                        },
                    },
                    _ => None,
                }
            },
        }
    }

    /// The descriptor that the adapter was made for.
    pub fn fd(&self) -> (fd: i32)
        ensures
            fd == self@.fd,
    {
        self.fd
    }

    /// Where the adapter stands.
    pub fn phase(&self) -> (phase: Phase)
        ensures
            phase == self@.phase,
    {
        self.phase
    }

    /// The status word that has been sent to the descriptor, once one has
    /// been. It always holds the non-blocking flag, so that whenever the
    /// descriptor is offered to the scheduler, and for as long as the
    /// adapter owns it, the word installed on it is a non-blocking one.
    pub fn mode(&self) -> (word: Option<i32>)
        ensures
            word == mode_of(self@.phase),
            word matches Some(flags) ==> holds_nonblock(flags),
    {
        proof {
            use_type_invariant(self);
        }
        match self.phase {
            Phase::AwaitingMode { flags } => Some(flags),
            Phase::AwaitingRegistration { flags } => Some(flags),
            Phase::Active { flags } => Some(flags),
            _ => None,
        }
    }

    /// Flushing has nothing to do: the descriptor holds no buffer of its
    /// own. It completes at once and leaves the descriptor alone.
    pub fn poll_flush<E>(&self) -> (turn: Turn<(), E>)
        ensures
            turn == Turn::<(), E>::Complete(Ok(())),
    {
        Turn::Complete(Ok(()))
    }

    /// Shutting down has nothing to do either: a descriptor has no way of
    /// closing one direction short of closing it. It completes at once and
    /// does not close the descriptor.
    pub fn poll_shutdown<E>(&self) -> (turn: Turn<(), E>)
        ensures
            turn == Turn::<(), E>::Complete(Ok(())),
    {
        Turn::Complete(Ok(()))
    }

    /// Tears the adapter down. An adapter that owns its descriptor hands
    /// it out, to be closed by the caller, and owns it no longer; any
    /// other adapter hands out nothing and stays as it is.
    pub fn teardown(&mut self) -> (fd: Option<i32>)
        ensures
            fd == released(old(self)@),
            final(self)@ == torn_down(old(self)@),
    {
        match self.phase {
            Phase::Active { .. } => {
                self.phase = Phase::Closed;
                Some(self.fd)
            },
            _ => None,
        }
    }
}

/// Something that is done to an adapter: a step of its construction, or
/// one of the operations that the stream interface and the owner call.
pub enum Op<E> {
    /// An answer is reported during construction.
    Configure(SetupEvent<E>),
    /// The stream is flushed.
    Flush,
    /// The stream is shut down.
    Shutdown,
    /// The adapter is discarded.
    Teardown,
}

/// The adapter after `op`.
pub open spec fn state_after<E>(state: AdapterState, op: Op<E>) -> AdapterState {
    match op {
        Op::Configure(event) => AdapterState {
            fd: state.fd,
            phase: phase_after(state.phase, event),
        },
        Op::Flush => state,
        Op::Shutdown => state,
        Op::Teardown => torn_down(state),
    }
}

/// The descriptor that `op` hands out for closing, if it hands one out.
pub open spec fn closed_by<E>(state: AdapterState, op: Op<E>) -> Option<i32> {
    match op {
        Op::Teardown => released(state),
        _ => None,
    }
}

/// The adapter after all of `ops`, in order.
pub open spec fn state_after_all<E>(state: AdapterState, ops: Seq<Op<E>>) -> AdapterState
    decreases ops.len(),
{
    if ops.len() == 0 {
        state
    } else {
        state_after_all(state_after(state, ops.first()), ops.drop_first())
    }
}

/// The descriptors that `ops` hand out for closing, in order.
pub open spec fn closes<E>(state: AdapterState, ops: Seq<Op<E>>) -> Seq<i32>
    decreases ops.len(),
{
    if ops.len() == 0 {
        Seq::empty()
    } else {
        let rest = closes(state_after(state, ops.first()), ops.drop_first());
        match closed_by(state, ops.first()) {
            Some(fd) => seq![fd] + rest,
            None => rest,
        }
    }
}

/// Whether the status word that a phase carries, if it carries one, is the
/// non-blocking word of some status word.
pub open spec fn mode_is_nonblocking(phase: Phase) -> bool {
    match phase {
        Phase::AwaitingMode { flags } => exists|bits: i32| flags == #[trigger] nonblocking(bits),
        Phase::AwaitingRegistration { flags } => exists|bits: i32|
            flags == #[trigger] nonblocking(bits),
        Phase::Active { flags } => exists|bits: i32| flags == #[trigger] nonblocking(bits),
        _ => true,
    }
}

/// The descriptor is offered to the scheduler exactly when the
/// non-blocking status word has just been installed on it.
pub proof fn lemma_registration_follows_mode<E>(phase: Phase, event: SetupEvent<E>)
    ensures
        step_after(phase, event) == Some(SetupStep::<E>::Register) <==> phase is AwaitingMode
            && event is ModeSet && event->ModeSet_0 is Ok,
        phase_after(phase, event) is AwaitingRegistration && !(phase is AwaitingRegistration)
            ==> step_after(phase, event) == Some(SetupStep::<E>::Register),
        phase_after(phase, event) is Active && !(phase is Active) ==> phase
            is AwaitingRegistration && event is Registered && event->Registered_0 is Ok,
{
}

/// Whatever is done to a new adapter, in whatever order, the status word
/// of a descriptor that is registered, or offered for registration, is one
/// that was made non-blocking: no other word is ever sent to a descriptor.
pub proof fn lemma_descriptor_is_nonblocking_before_registration<E>(fd: i32, ops: Seq<Op<E>>)
    ensures
        mode_is_nonblocking(
            state_after_all(AdapterState { fd, phase: Phase::AwaitingFlags }, ops).phase,
        ),
{
    lemma_mode_stays_nonblocking(AdapterState { fd, phase: Phase::AwaitingFlags }, ops);
}

proof fn lemma_mode_stays_nonblocking<E>(state: AdapterState, ops: Seq<Op<E>>)
    requires
        mode_is_nonblocking(state.phase),
    ensures
        mode_is_nonblocking(state_after_all(state, ops).phase),
    decreases ops.len(),
{
    if ops.len() > 0 {
        lemma_mode_stays_nonblocking(state_after(state, ops.first()), ops.drop_first());
    }
}

/// Closing is idempotent: however often an adapter is flushed, shut down
/// and torn down, and in whatever order, its descriptor is handed out for
/// closing at most once, no other descriptor ever is, and flushing and
/// shutting down never hand one out.
pub proof fn lemma_descriptor_is_closed_at_most_once<E>(state: AdapterState, ops: Seq<Op<E>>)
    ensures
        closes(state, ops).len() <= 1,
        closes(state, ops).len() == 1 ==> closes(state, ops)[0] == state.fd,
        state_after_all(state, ops).fd == state.fd,
        state.phase is Closed || state.phase is Failed ==> closes(state, ops).len() == 0
            && state_after_all(state, ops).phase == state.phase,
        closes(state, ops).len() == 1 ==> state_after_all(state, ops).phase is Closed,
    decreases ops.len(),
{
    if ops.len() > 0 {
        let next = state_after(state, ops.first());
        lemma_descriptor_is_closed_at_most_once(next, ops.drop_first());
    }
}

/// An adapter that owns its descriptor closes it exactly when it is torn
/// down: once if `ops` hold a teardown, however many, and never if they
/// hold none.
pub proof fn lemma_teardown_closes_the_descriptor<E>(state: AdapterState, ops: Seq<Op<E>>)
    requires
        state.phase is Active,
    ensures
        closes(state, ops).len() == 1 <==> exists|i: int| 0 <= i < ops.len() && ops[i] is Teardown,
        closes(state, ops).len() == 0 <==> forall|i: int|
            0 <= i < ops.len() ==> !(ops[i] is Teardown),
    decreases ops.len(),
{
    lemma_descriptor_is_closed_at_most_once(state, ops);
    if ops.len() > 0 {
        let head = ops.first();
        let tail = ops.drop_first();
        let next = state_after(state, head);
        assert(forall|i: int| 0 <= i < tail.len() ==> tail[i] == ops[i + 1]);
        if head is Teardown {
            assert(ops[0] is Teardown);
            lemma_descriptor_is_closed_at_most_once(next, tail);
        } else {
            lemma_teardown_closes_the_descriptor(next, tail);
            if exists|i: int| 0 <= i < tail.len() && tail[i] is Teardown {
                let i: int = choose|i: int| 0 <= i < tail.len() && tail[i] is Teardown;
                assert(ops[i + 1] is Teardown);
            }
            if exists|i: int| 0 <= i < ops.len() && ops[i] is Teardown {
                let i: int = choose|i: int| 0 <= i < ops.len() && ops[i] is Teardown;
                assert(i > 0);
                assert(tail[i - 1] is Teardown);
            }
        }
    }
}

} // verus!
