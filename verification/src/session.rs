//! The session bridge: one connection, one child process behind a
//! pseudoterminal, and the order in which they are brought up and put
//! away.
//!
//! A session asks for a process and a terminal pair, wraps the master
//! descriptor in an adapter, copies bytes both ways until the copy ends,
//! lets the adapter go, which closes the master descriptor, and waits for
//! the child. The caller does each of these things and reports how it
//! went; [`Session::step`] answers with the next thing to do.
//!
//! The master descriptor is closed before the child is waited for: a child
//! that still runs loses its terminal and exits, so the wait comes back.

use crate::adapter::{released, AdapterState};
use vstd::prelude::*;

verus! {

/// The two sides of a finished process creation.
#[derive(Debug, Clone, Copy, PartialEq, Eq)]
pub enum Fork {
    /// This is the new process, with the slave side of the terminal as its
    /// controlling terminal and standard streams.
    Child,
    /// This is the process that asked: `child` is the new process and
    /// `master` the master descriptor of its terminal.
    Parent { child: i32, master: i32 },
}

/// Where a session stands.
#[derive(Debug, Clone, Copy, PartialEq, Eq)]
pub enum Stage {
    /// Nothing has been acquired; a process and a terminal pair have been
    /// asked for.
    Created,
    /// This process is the child. It becomes the session program, or
    /// exits, and has no further part in the session.
    ChildImage,
    /// The child runs; the adapter over `master` is being built.
    Wrapping { child: i32, master: i32 },
    /// Bytes are copied between the connection and the terminal.
    Bridging { child: i32, master: i32 },
    /// Bridging is over; `master` is being closed.
    Releasing { child: i32, master: i32 },
    /// The master descriptor is closed; the child is being waited for.
    Reaping { child: i32 },
    /// The master descriptor is closed and the child reaped.
    Closed,
    /// Process creation failed. Nothing was acquired and nothing is held.
    Abandoned,
}

/// What the caller reports. `E` is the caller's error type.
#[derive(Debug, PartialEq, Eq)]
pub enum Event<E> {
    /// Process creation returned.
    Forked(Result<Fork, E>),
    /// The child could not be replaced by the session program.
    ExecFailed(E),
    /// The adapter over the master descriptor was built, or could not be.
    AdapterBuilt(Result<(), E>),
    /// The copy between connection and terminal ended: with the number of
    /// bytes carried each way, or with an error.
    BridgeEnded(Result<(u64, u64), E>),
    /// The master descriptor was closed.
    MasterClosed,
    /// Waiting for the child returned.
    ChildReaped(Result<(), E>),
}

/// What the caller is to do next.
#[derive(Debug, PartialEq, Eq)]
pub enum Directive<E> {
    /// Replace this process by the session program.
    Exec,
    /// Exit from this process, which is the child and has nobody to
    /// report to: the error is dropped.
    Exit,
    /// Process creation failed. Nothing was acquired: report the error.
    /// The session is over.
    Report(E),
    /// Build the adapter over `master`.
    Wrap { master: i32 },
    /// Copy bytes both ways between the adapter and the connection, until
    /// both directions have ended or one has failed.
    Bridge,
    /// The adapter could not be built, so the descriptor is still raw:
    /// close `master` and report the error.
    Abandon { master: i32, error: E },
    /// Discard the adapter, which closes `master`.
    Release { master: i32 },
    /// Wait for `child` to exit. Its exit status is of no interest.
    Reap { child: i32 },
    /// The session is over. If waiting for the child failed, log
    /// `reap_error`; the wait is not tried again.
    Finish { reap_error: Option<E> },
}

/// Whether a session in `stage` waits for `event`.
pub open spec fn expects<E>(stage: Stage, event: Event<E>) -> bool {
    match (stage, event) {
        (Stage::Created, Event::Forked(_)) => true,
        (Stage::ChildImage, Event::ExecFailed(_)) => true,
        (Stage::Wrapping { .. }, Event::AdapterBuilt(_)) => true,
        (Stage::Bridging { .. }, Event::BridgeEnded(_)) => true,
        (Stage::Releasing { .. }, Event::MasterClosed) => true,
        (Stage::Reaping { .. }, Event::ChildReaped(_)) => true,
        _ => false,
    }
}

/// The stage that follows `stage` on `event`. An event that the stage
/// does not wait for changes nothing.
pub open spec fn stage_after<E>(stage: Stage, event: Event<E>) -> Stage {
    match (stage, event) {
        (Stage::Created, Event::Forked(Err(_))) => Stage::Abandoned,
        (Stage::Created, Event::Forked(Ok(Fork::Child))) => Stage::ChildImage,
        (Stage::Created, Event::Forked(Ok(Fork::Parent { child, master }))) => Stage::Wrapping {
            child,
            master,
        },
        (Stage::Wrapping { child, master }, Event::AdapterBuilt(Ok(_))) => Stage::Bridging {
            child,
            master,
        },
        (Stage::Wrapping { child, master }, Event::AdapterBuilt(Err(_))) => Stage::Releasing {
            child,
            master,
        },
        (Stage::Bridging { child, master }, Event::BridgeEnded(_)) => Stage::Releasing {
            child,
            master,
        },
        (Stage::Releasing { child, .. }, Event::MasterClosed) => Stage::Reaping { child },
        (Stage::Reaping { .. }, Event::ChildReaped(_)) => Stage::Closed,
        _ => stage,
    }
}

/// What a session in `stage` asks for on `event`: nothing where the stage
/// does not wait for the event.
pub open spec fn directive_after<E>(stage: Stage, event: Event<E>) -> Option<Directive<E>> {
    match (stage, event) {
        (Stage::Created, Event::Forked(Err(error))) => Some(Directive::Report(error)),
        (Stage::Created, Event::Forked(Ok(Fork::Child))) => Some(Directive::Exec),
        (Stage::Created, Event::Forked(Ok(Fork::Parent { master, .. }))) => Some(
            Directive::Wrap { master },
        ),
        (Stage::ChildImage, Event::ExecFailed(_)) => Some(Directive::Exit),
        (Stage::Wrapping { .. }, Event::AdapterBuilt(Ok(_))) => Some(Directive::Bridge),
        (Stage::Wrapping { master, .. }, Event::AdapterBuilt(Err(error))) => Some(
            Directive::Abandon { master, error },
        ),
        (Stage::Bridging { master, .. }, Event::BridgeEnded(_)) => Some(
            Directive::Release { master },
        ),
        (Stage::Releasing { child, .. }, Event::MasterClosed) => Some(Directive::Reap { child }),
        (Stage::Reaping { .. }, Event::ChildReaped(Ok(_))) => Some(
            Directive::Finish { reap_error: None },
        ),
        (Stage::Reaping { .. }, Event::ChildReaped(Err(error))) => Some(
            Directive::Finish { reap_error: Some(error) },
        ),
        _ => None,
    }
}

/// One session.
#[derive(Debug)]
pub struct Session {
    stage: Stage,
}

impl View for Session {
    type V = Stage;

    closed spec fn view(&self) -> Stage {
        self.stage
    }
}

impl Session {
    /// Starts a session. It holds nothing yet; the caller asks the
    /// operating system for a process and a terminal pair and reports the
    /// outcome to [`Session::step`].
    pub fn new() -> (session: Session)
        ensures
            session@ == Stage::Created,
    {
        Session { stage: Stage::Created }
    }

    /// Where the session stands.
    pub fn stage(&self) -> (stage: Stage)
        ensures
            stage == self@,
    {
        self.stage
    }

    /// Takes the session one step on: records what the caller reports and
    /// says what to do next.
    ///
    /// Returns `None`, and leaves the session as it is, exactly when the
    /// session does not wait for `event`. How the copy ended makes no
    /// difference to what follows it: the master descriptor is closed and
    /// the child waited for. Nor does it matter how the wait ended: the
    /// session is over.
    pub fn step<E>(&mut self, event: Event<E>) -> (directive: Option<Directive<E>>)
        ensures
            final(self)@ == stage_after(old(self)@, event),
            directive == directive_after(old(self)@, event),
            directive is Some <==> expects(old(self)@, event),
    {
        match event {
            Event::Forked(outcome) => match self.stage {
                Stage::Created => match outcome {
                    Err(error) => {
                        self.stage = Stage::Abandoned;
                        Some(Directive::Report(error))
                    },
                    Ok(Fork::Child) => {
                        self.stage = Stage::ChildImage;
                        Some(Directive::Exec)
                    },
                    Ok(Fork::Parent { child, master }) => {
                        self.stage = Stage::Wrapping { child, master };
                        Some(Directive::Wrap { master })
                    },
                },
                _ => None,
            },
            Event::ExecFailed(_) => match self.stage {
                Stage::ChildImage => Some(Directive::Exit),
                _ => None,
            },
            Event::AdapterBuilt(outcome) => match self.stage {
                Stage::Wrapping { child, master } => match outcome {
                    Ok(_) => {
                        self.stage = Stage::Bridging { child, master };
                        Some(Directive::Bridge)
                    },
                    Err(error) => {
                        self.stage = Stage::Releasing { child, master };
                        Some(Directive::Abandon { master, error })
                    },
                },
                _ => None,
            },
            Event::BridgeEnded(_) => match self.stage {
                Stage::Bridging { child, master } => {
                    self.stage = Stage::Releasing { child, master };
                    Some(Directive::Release { master })
                },
                _ => None,
            },
            Event::MasterClosed => match self.stage {
                Stage::Releasing { child, master: _ } => {
                    self.stage = Stage::Reaping { child };
                    Some(Directive::Reap { child })
                },
                _ => None,
            },
            Event::ChildReaped(outcome) => match self.stage {
                Stage::Reaping { .. } => {
                    self.stage = Stage::Closed;
                    match outcome {
                        Ok(_) => Some(Directive::Finish { reap_error: None }),
                        Err(error) => Some(Directive::Finish { reap_error: Some(error) }),
                    }
                },
                _ => None,
            },
        }
    }
}

/// The stage of a session after all of `events`, in order.
pub open spec fn stage_after_all<E>(stage: Stage, events: Seq<Event<E>>) -> Stage
    decreases events.len(),
{
    if events.len() == 0 {
        stage
    } else {
        stage_after_all(stage_after(stage, events.first()), events.drop_first())
    }
}

/// The child that a directive sends the caller to wait for.
pub open spec fn reaped_by<E>(directive: Option<Directive<E>>) -> Option<i32> {
    match directive {
        Some(Directive::Reap { child }) => Some(child),
        _ => None,
    }
}

/// The master descriptor that a directive has the caller close: by
/// discarding the adapter, or directly where no adapter was built.
pub open spec fn closed_by<E>(directive: Option<Directive<E>>) -> Option<i32> {
    match directive {
        Some(Directive::Release { master }) => Some(master),
        Some(Directive::Abandon { master, .. }) => Some(master),
        _ => None,
    }
}

/// The children that a session starting in `stage` has the caller wait
/// for while `events` are reported, in order.
pub open spec fn reaps<E>(stage: Stage, events: Seq<Event<E>>) -> Seq<i32>
    decreases events.len(),
{
    if events.len() == 0 {
        Seq::empty()
    } else {
        let rest = reaps(stage_after(stage, events.first()), events.drop_first());
        match reaped_by(directive_after(stage, events.first())) {
            Some(child) => seq![child] + rest,
            None => rest,
        }
    }
}

/// The master descriptors that a session starting in `stage` has the
/// caller close while `events` are reported, in order.
pub open spec fn closes<E>(stage: Stage, events: Seq<Event<E>>) -> Seq<i32>
    decreases events.len(),
{
    if events.len() == 0 {
        Seq::empty()
    } else {
        let rest = closes(stage_after(stage, events.first()), events.drop_first());
        match closed_by(directive_after(stage, events.first())) {
            Some(master) => seq![master] + rest,
            None => rest,
        }
    }
}

/// The child that a session in `stage` still has to wait for.
pub open spec fn child_to_reap(stage: Stage) -> Option<i32> {
    match stage {
        Stage::Wrapping { child, .. } => Some(child),
        Stage::Bridging { child, .. } => Some(child),
        Stage::Releasing { child, .. } => Some(child),
        _ => None,
    }
}

/// The master descriptor that a session in `stage` still has to close.
pub open spec fn master_to_close(stage: Stage) -> Option<i32> {
    match stage {
        Stage::Wrapping { master, .. } => Some(master),
        Stage::Bridging { master, .. } => Some(master),
        _ => None,
    }
}

/// How far a session has come. The stages that end a session without
/// closing it stand last.
pub open spec fn progress(stage: Stage) -> nat {
    match stage {
        Stage::Created => 0,
        Stage::Wrapping { .. } => 1,
        Stage::Bridging { .. } => 2,
        Stage::Releasing { .. } => 3,
        Stage::Reaping { .. } => 4,
        Stage::Closed => 5,
        Stage::ChildImage => 6,
        Stage::Abandoned => 6,
    }
}

/// A session never goes back to an earlier stage, whatever is reported to
/// it.
pub proof fn lemma_session_never_goes_back<E>(stage: Stage, events: Seq<Event<E>>)
    ensures
        progress(stage) <= progress(stage_after_all(stage, events)),
    decreases events.len(),
{
    if events.len() > 0 {
        lemma_session_never_goes_back(stage_after(stage, events.first()), events.drop_first());
    }
}

/// From the moment the child runs, what a session will close and reap is
/// settled: nothing but its own master descriptor and its own child, each
/// at most once, and both exactly once if the session gets to `Closed`.
/// A session that holds nothing any more closes and reaps nothing.
pub proof fn lemma_session_settles_what_it_holds<E>(stage: Stage, events: Seq<Event<E>>)
    requires
        !(stage is Created),
    ensures
        match child_to_reap(stage) {
            Some(child) => reaps(stage, events) == seq![child] || reaps(stage, events)
                == Seq::<i32>::empty(),
            None => reaps(stage, events) == Seq::<i32>::empty(),
        },
        match master_to_close(stage) {
            Some(master) => closes(stage, events) == seq![master] || closes(stage, events)
                == Seq::<i32>::empty(),
            None => closes(stage, events) == Seq::<i32>::empty(),
        },
        stage_after_all(stage, events) is Closed ==> (child_to_reap(stage) is Some ==> reaps(
            stage,
            events,
        ).len() == 1) && (master_to_close(stage) is Some ==> closes(stage, events).len() == 1),
        stage is Closed || stage is Abandoned || stage is ChildImage ==> stage_after_all(
            stage,
            events,
        ) == stage,
    decreases events.len(),
{
    if events.len() > 0 {
        let next = stage_after(stage, events.first());
        lemma_session_settles_what_it_holds(next, events.drop_first());
        let rest_reaps = reaps(next, events.drop_first());
        let rest_closes = closes(next, events.drop_first());
        match reaped_by(directive_after(stage, events.first())) {
            Some(child) => {
                assert(seq![child] + rest_reaps =~= seq![child]);
            },
            None => {},
        }
        match closed_by(directive_after(stage, events.first())) {
            Some(master) => {
                assert(seq![master] + rest_closes =~= seq![master]);
            },
            None => {},
        }
    }
}

/// No session closes more than one master descriptor or waits for more
/// than one child, whatever is reported to it and in whatever order.
pub proof fn lemma_session_closes_and_reaps_at_most_once<E>(stage: Stage, events: Seq<Event<E>>)
    ensures
        closes(stage, events).len() <= 1,
        reaps(stage, events).len() <= 1,
    decreases events.len(),
{
    if stage is Created {
        if events.len() > 0 {
            let next = stage_after(stage, events.first());
            lemma_session_closes_and_reaps_at_most_once(next, events.drop_first());
        }
    } else {
        lemma_session_settles_what_it_holds(stage, events);
    }
}

/// The first outcome of process creation among `events`: the one that a
/// new session acts on.
pub open spec fn first_fork<E>(events: Seq<Event<E>>) -> Option<Result<Fork, E>>
    decreases events.len(),
{
    if events.len() == 0 {
        None
    } else {
        match events.first() {
            Event::Forked(outcome) => Some(outcome),
            _ => first_fork(events.drop_first()),
        }
    }
}

/// A session that runs from `Created` to `Closed` closed exactly one
/// master descriptor and waited for exactly one child: the descriptor and
/// the child that process creation gave it.
pub proof fn lemma_closed_session_closed_and_reaped_once<E>(events: Seq<Event<E>>)
    requires
        stage_after_all(Stage::Created, events) is Closed,
    ensures
        first_fork(events) matches Some(Ok(Fork::Parent { child, master })) && reaps(
            Stage::Created,
            events,
        ) == seq![child] && closes(Stage::Created, events) == seq![master],
    decreases events.len(),
{
    if events.len() > 0 {
        let next = stage_after(Stage::Created, events.first());
        let rest = events.drop_first();
        if next is Created {
            lemma_closed_session_closed_and_reaped_once(rest);
        } else {
            lemma_session_settles_what_it_holds(next, rest);
        }
    }
}

/// Once the child runs, a session is not over before it is `Closed`: in
/// every stage before that it waits for an event, and each event it waits
/// for takes it further on the way to `Closed` and never off it.
pub proof fn lemma_session_with_a_child_ends_closed<E>(stage: Stage)
    requires
        stage is Wrapping || stage is Bridging || stage is Releasing || stage is Reaping,
    ensures
        exists|event: Event<E>| expects(stage, event),
        forall|event: Event<E>| #[trigger]
            expects(stage, event) ==> progress(stage) < progress(stage_after(stage, event)) <= 5,
{
    match stage {
        Stage::Wrapping { .. } => {
            assert(expects(stage, Event::<E>::AdapterBuilt(Ok(()))));
        },
        Stage::Bridging { .. } => {
            assert(expects(stage, Event::<E>::BridgeEnded(Ok((0, 0)))));
        },
        Stage::Releasing { .. } => {
            assert(expects(stage, Event::<E>::MasterClosed));
        },
        _ => {
            assert(expects(stage, Event::<E>::ChildReaped(Ok(()))));
        },
    }
}

/// The number of children that `sessions` have the caller wait for, each
/// session being the events reported to it from its start.
pub open spec fn total_reaps<E>(sessions: Seq<Seq<Event<E>>>) -> nat
    decreases sessions.len(),
{
    if sessions.len() == 0 {
        0
    } else {
        reaps(Stage::Created, sessions.first()).len() + total_reaps(sessions.drop_first())
    }
}

/// The number of master descriptors that `sessions` have the caller
/// close.
pub open spec fn total_closes<E>(sessions: Seq<Seq<Event<E>>>) -> nat
    decreases sessions.len(),
{
    if sessions.len() == 0 {
        0
    } else {
        closes(Stage::Created, sessions.first()).len() + total_closes(sessions.drop_first())
    }
}

/// Nothing leaks: of any number of sessions that were opened and ran to
/// `Closed`, each child was waited for once and each master descriptor
/// closed once, so that as many children were reaped and as many
/// descriptors closed as there were sessions.
pub proof fn lemma_closed_sessions_leak_nothing<E>(sessions: Seq<Seq<Event<E>>>)
    requires
        forall|i: int|
            0 <= i < sessions.len() ==> #[trigger] stage_after_all(Stage::Created, sessions[i])
                is Closed,
    ensures
        total_reaps(sessions) == sessions.len(),
        total_closes(sessions) == sessions.len(),
    decreases sessions.len(),
{
    if sessions.len() > 0 {
        let rest = sessions.drop_first();
        lemma_closed_session_closed_and_reaped_once(sessions.first());
        assert forall|i: int| 0 <= i < rest.len() implies #[trigger] stage_after_all(
            Stage::Created,
            rest[i],
        ) is Closed by {
            assert(rest[i] == sessions[i + 1]);
        }
        lemma_closed_sessions_leak_nothing(rest);
    }
}

/// The master descriptor outlives the copy, and the child outlives the
/// master descriptor: as long as a session is building its adapter or
/// copying, it has closed nothing and waited for nobody; and it waits for
/// the child only when it has had the master descriptor closed.
pub proof fn lemma_master_outlives_the_bridge<E>(events: Seq<Event<E>>)
    ensures
        ({
            let stage = stage_after_all(Stage::Created, events);
            stage is Created || stage is Wrapping || stage is Bridging
        }) ==> closes(Stage::Created, events) == Seq::<i32>::empty() && reaps(
            Stage::Created,
            events,
        ) == Seq::<i32>::empty(),
        reaps(Stage::Created, events).len() == 1 ==> closes(Stage::Created, events).len() == 1,
{
    lemma_nothing_released_early(Stage::Created, events);
}

proof fn lemma_nothing_released_early<E>(stage: Stage, events: Seq<Event<E>>)
    ensures
        ({
            let last = stage_after_all(stage, events);
            last is Created || last is Wrapping || last is Bridging
        }) ==> closes(stage, events) == Seq::<i32>::empty() && reaps(stage, events)
            == Seq::<i32>::empty(),
        stage is Created || stage is Wrapping || stage is Bridging ==> (reaps(stage, events).len()
            == 1 ==> closes(stage, events).len() == 1),
    decreases events.len(),
{
    if events.len() > 0 {
        let next = stage_after(stage, events.first());
        lemma_nothing_released_early(next, events.drop_first());
        lemma_session_never_goes_back(next, events.drop_first());
        if !(next is Created) {
            lemma_session_settles_what_it_holds(next, events.drop_first());
        }
    }
}

/// The master descriptor has one owner at a time, and it is the owner who
/// closes it. An adapter that was built owns the descriptor: when the
/// session has it discarded, its teardown hands out that descriptor, and
/// the session closes nothing itself. An adapter that could not be built
/// never owned the descriptor and hands out nothing: the session has the
/// raw descriptor closed.
pub proof fn lemma_master_is_closed_by_its_owner<E>(
    child: i32,
    master: i32,
    adapter: AdapterState,
    outcome: Result<(), E>,
    bridge: Result<(u64, u64), E>,
)
    requires
        adapter.fd == master,
        outcome is Ok ==> adapter.phase is Active,
        outcome is Err ==> adapter.phase is Failed,
    ensures
        ({
            let wrapping = Stage::Wrapping { child, master };
            let built = directive_after(wrapping, Event::AdapterBuilt(outcome));
            let next = stage_after(wrapping, Event::AdapterBuilt(outcome));
            let ended = directive_after(next, Event::BridgeEnded(bridge));
            &&& outcome is Ok ==> closed_by(built) is None && ended == Some(
                Directive::<E>::Release { master },
            ) && released(adapter) == Some(master)
            &&& outcome is Err ==> closed_by(built) == Some(master) && ended is None && released(
                adapter,
            ) is None
        }),
{
}

/// Once bridging is over, the session is put away in three steps,
/// whatever they report: however the copy ended, the master descriptor is
/// closed next; then the child is waited for; and however the wait ended,
/// the session is closed.
pub proof fn lemma_session_is_put_away_after_bridging<E>(
    child: i32,
    master: i32,
    bridge: Result<(u64, u64), E>,
    wait: Result<(), E>,
)
    ensures
        ({
            let bridging = Stage::Bridging { child, master };
            let releasing = stage_after(bridging, Event::BridgeEnded(bridge));
            let reaping = stage_after(releasing, Event::<E>::MasterClosed);
            &&& directive_after(bridging, Event::BridgeEnded(bridge)) == Some(
                Directive::<E>::Release { master },
            )
            &&& directive_after(releasing, Event::<E>::MasterClosed) == Some(
                Directive::<E>::Reap { child },
            )
            &&& directive_after(reaping, Event::ChildReaped(wait)) is Some
            &&& directive_after(reaping, Event::ChildReaped(wait))->Some_0 is Finish
            &&& stage_after(reaping, Event::ChildReaped(wait)) is Closed
        }),
{
}

} // verus!
