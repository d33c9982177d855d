//! Framing of a bus write by the chip-select line.
//!
//! The device listens only while its chip-select line is low, and takes a
//! command when the line goes high again after thirty-two bits. A
//! [`FramedWrite`] asks for the three hardware operations of one command,
//! one at a time, and is told what came of each. It asks for the line to be
//! released whatever the bus reported, and what the bus reported is what
//! the command returns.

use vstd::prelude::*;

verus! {

/// Level of the chip-select line. The device is selected while it is low.
#[derive(Debug, Copy, Clone, PartialEq, Eq, Structural)]
pub enum Level {
    Low,
    High,
}

/// One operation on the hardware.
#[derive(Debug, Copy, Clone, PartialEq, Eq)]
pub enum Action {
    /// Drive the chip-select line to the level.
    Drive(Level),
    /// Write the four bytes to the bus, in one call.
    Write([u8; 4]),
}

/// What the hardware reported of an operation: `E` is the error of the bus,
/// `P` that of the chip-select line.
#[derive(Debug, PartialEq, Eq)]
pub enum Event<E, P> {
    /// The chip-select line was driven, with this result.
    Line(Result<(), P>),
    /// The bus write returned this result.
    Bus(Result<(), E>),
}

impl<E, P> Event<E, P> {
    /// Whether the event is the report of that kind of operation.
    pub open spec fn answers(self, action: Action) -> bool {
        match (action, self) {
            (Action::Drive(_), Event::Line(_)) => true,
            (Action::Write(_), Event::Bus(_)) => true,
            _ => false,
        }
    }
}

/// How far a framed write has come.
#[derive(Debug, PartialEq, Eq)]
pub enum Stage<E> {
    /// The device is to be selected.
    Select,
    /// The device was asked to be selected; the frame is to be written.
    Transfer,
    /// The write returned the result held here; the device is to be
    /// released.
    Deselect(Result<(), E>),
}

/// One bus write of a frame, bracketed by chip-select.
#[derive(Debug, PartialEq, Eq)]
pub struct FramedWrite<E> {
    /// The bytes to write.
    pub frame: [u8; 4],
    /// What is to be done next.
    pub stage: Stage<E>,
}

/// A framed write after an event: still under way, or finished with the
/// result of its bus write.
#[derive(Debug, PartialEq, Eq)]
pub enum Progress<E> {
    Pending(FramedWrite<E>),
    Complete(Result<(), E>),
}

impl<E> FramedWrite<E> {
    /// A framed write of `frame` of which nothing has been done yet.
    pub open spec fn spec_begin(frame: [u8; 4]) -> Self {
        FramedWrite { frame, stage: Stage::Select }
    }

    /// Whether this is a framed write of `bytes` of which nothing has been
    /// done yet.
    pub open spec fn sends(self, bytes: Seq<u8>) -> bool {
        self.stage is Select && self.frame@ == bytes
    }

    /// Starts a framed write of `frame`.
    #[verifier::when_used_as_spec(spec_begin)]
    pub fn begin(frame: [u8; 4]) -> (tx: Self)
        ensures
            tx == Self::spec_begin(frame),
    {
        FramedWrite { frame, stage: Stage::Select }
    }

    /// The operation that the framed write waits for.
    pub open spec fn spec_action(&self) -> Action {
        match self.stage {
            Stage::Select => Action::Drive(Level::Low),
            Stage::Transfer => Action::Write(self.frame),
            Stage::Deselect(_) => Action::Drive(Level::High),
        }
    }

    /// The operation to carry out next.
    #[verifier::when_used_as_spec(spec_action)]
    pub fn action(&self) -> (action: Action)
        ensures
            action == self.spec_action(),
    {
        match self.stage {
            Stage::Select => Action::Drive(Level::Low),
            Stage::Transfer => Action::Write(self.frame),
            Stage::Deselect(_) => Action::Drive(Level::High),
        }
    }

    /// The framed write after `event`.
    ///
    /// A report from the chip-select line moves it on whether the line
    /// succeeded or failed. The result of the bus write is kept until the
    /// line has been released, and is then the result of the whole. An event
    /// that does not answer the pending operation changes nothing.
    pub open spec fn spec_advance<P>(self, event: Event<E, P>) -> Progress<E> {
        match (self.stage, event) {
            (Stage::Select, Event::Line(_)) => Progress::Pending(
                FramedWrite { frame: self.frame, stage: Stage::Transfer },
            ),
            (Stage::Transfer, Event::Bus(result)) => Progress::Pending(
                FramedWrite { frame: self.frame, stage: Stage::Deselect(result) },
            ),
            (Stage::Deselect(result), Event::Line(_)) => Progress::Complete(result),
            _ => Progress::Pending(self),
        }
    }

    /// Takes the report of the hardware and moves on.
    #[verifier::when_used_as_spec(spec_advance)]
    pub fn advance<P>(self, event: Event<E, P>) -> (progress: Progress<E>)
        ensures
            progress == self.spec_advance(event),
    {
        let FramedWrite { frame, stage } = self;
        match (stage, event) {
            (Stage::Select, Event::Line(_)) => Progress::Pending(
                FramedWrite { frame, stage: Stage::Transfer },
            ),
            (Stage::Transfer, Event::Bus(result)) => Progress::Pending(
                FramedWrite { frame, stage: Stage::Deselect(result) },
            ),
            (Stage::Deselect(result), Event::Line(_)) => Progress::Complete(result),
            (stage, _) => Progress::Pending(FramedWrite { frame, stage }),
        }
    }
}

/// What carrying out a framed write came to: the operations it asked for,
/// in order, and its result if it finished.
pub struct Run<E> {
    pub actions: Seq<Action>,
    pub outcome: Option<Result<(), E>>,
}

/// Carries out `tx` against hardware that reports `respond(action)` of each
/// operation, for at most `limit` operations.
pub open spec fn run<E, P>(
    tx: FramedWrite<E>,
    respond: spec_fn(Action) -> Event<E, P>,
    limit: nat,
) -> Run<E>
    decreases limit,
{
    if limit == 0 {
        Run { actions: Seq::empty(), outcome: None }
    } else {
        let action = tx.spec_action();
        match tx.spec_advance(respond(action)) {
            Progress::Pending(next) => {
                let rest = run(next, respond, (limit - 1) as nat);
                Run { actions: seq![action] + rest.actions, outcome: rest.outcome }
            },
            Progress::Complete(result) => Run { actions: seq![action], outcome: Some(result) },
        }
    }
}

/// A framed write selects the device, writes the frame once, and releases
/// the device, in that order and whatever the hardware reports; its result
/// is the result of the bus write.
pub proof fn framed_write_order<E, P>(
    tx: FramedWrite<E>,
    respond: spec_fn(Action) -> Event<E, P>,
    limit: nat,
)
    requires
        tx.stage is Select,
        forall|action: Action| #[trigger] respond(action).answers(action),
        limit >= 3,
    ensures
        run(tx, respond, limit).actions == seq![
            Action::Drive(Level::Low),
            Action::Write(tx.frame),
            Action::Drive(Level::High),
        ],
        respond(Action::Write(tx.frame)) matches Event::Bus(result) && run(
            tx,
            respond,
            limit,
        ).outcome == Some(result),
{
    reveal_with_fuel(run, 3);
    let select = Action::Drive(Level::Low);
    let write = Action::Write(tx.frame);
    let release = Action::Drive(Level::High);
    assert(respond(select).answers(select));
    assert(respond(write).answers(write));
    assert(respond(release).answers(release));
    assert(run(tx, respond, limit).actions =~= seq![select, write, release]);
}

/// When the bus write fails, the framed write still releases the device as
/// its last operation, and returns the error of the bus unchanged.
pub proof fn failed_write_releases_and_reports<E, P>(
    tx: FramedWrite<E>,
    respond: spec_fn(Action) -> Event<E, P>,
    limit: nat,
    error: E,
)
    requires
        tx.stage is Select,
        forall|action: Action| #[trigger] respond(action).answers(action),
        limit >= 3,
        respond(Action::Write(tx.frame)) == Event::<E, P>::Bus(Err(error)),
    ensures
        run(tx, respond, limit).outcome == Some(Err::<(), E>(error)),
        run(tx, respond, limit).actions.last() == Action::Drive(Level::High),
{
    framed_write_order(tx, respond, limit);
}

} // verus!
