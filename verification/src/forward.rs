//! The decisions around the forwarding loop: what follows each thing the
//! packet source yields, what follows each step that the sender asks for,
//! what the loop ends with, and what the race between the loop and an
//! interrupt ends with.

use vstd::prelude::*;
use crate::send::{Action, ActionView};

verus! {

/// What the packet source has yielded.
#[derive(Clone, Copy, Debug, PartialEq, Eq, Structural)]
pub enum SourceEvent {
    /// A decoded packet.
    Packet,
    /// An error of the decoder. Nothing can be read after it.
    DecodeFailed,
    /// The end of the source.
    Ended,
}

/// Why the forwarding failed.
#[derive(Clone, Copy, Debug, PartialEq, Eq, Structural)]
pub enum Failure {
    /// A packet could not be decoded.
    Decode,
    /// A packet could not be handled or the backend refused a call.
    Backend,
}

/// What the loop does next.
#[derive(Clone, Copy, Debug, PartialEq, Eq, Structural)]
pub enum Step {
    /// Handle the packet and go on with the source.
    Handle,
    /// Close the session, then end with this failure, or with success where
    /// there is none.
    Close { failure: Option<Failure> },
}

/// What follows a thing yielded by the source: a packet is handled; a
/// decoder error and the end of the source both close the session, the first
/// as a failure.
pub open spec fn spec_after_source(event: SourceEvent) -> Step {
    match event {
        SourceEvent::Packet => Step::Handle,
        SourceEvent::DecodeFailed => Step::Close { failure: Some(Failure::Decode) },
        SourceEvent::Ended => Step::Close { failure: None },
    }
}

/// What follows a thing yielded by the source.
pub fn after_source(event: SourceEvent) -> (step: Step)
    ensures
        step == spec_after_source(event),
{
    match event {
        SourceEvent::Packet => Step::Handle,
        SourceEvent::DecodeFailed => Step::Close { failure: Some(Failure::Decode) },
        SourceEvent::Ended => Step::Close { failure: None },
    }
}

/// What follows the handling of a packet: the next thing of the source
/// where it went well, else the closing of the session as a failure of the
/// backend.
pub open spec fn spec_after_handle(handled: bool) -> Option<Step> {
    if handled {
        None
    } else {
        Some(Step::Close { failure: Some(Failure::Backend) })
    }
}

/// What follows the handling of a packet; `None` stands for going on with
/// the source.
pub fn after_handle(handled: bool) -> (step: Option<Step>)
    ensures
        step == spec_after_handle(handled),
{
    if handled {
        None
    } else {
        Some(Step::Close { failure: Some(Failure::Backend) })
    }
}

/// What follows a step that the sender has asked for, `done` saying whether
/// the step went well: nothing stops after a step that went well, after a
/// warning, which is only logged, or after a report of the status, whose
/// failure is ignored; a switch, a publication, a sending or a flush that
/// failed stops the steps as a failure of the backend.
pub open spec fn spec_after_action(action: ActionView, done: bool) -> Option<Failure> {
    if done {
        None
    } else {
        match action {
            ActionView::Warn(_) => None,
            ActionView::ReportStatus => None,
            _ => Some(Failure::Backend),
        }
    }
}

/// What follows a step that the sender has asked for; `None` stands for
/// going on with the next step, a failure for stopping with it.
pub fn after_action(action: &Action, done: bool) -> (failure: Option<Failure>)
    ensures
        failure == spec_after_action(action@, done),
{
    if done {
        None
    } else {
        match action {
            Action::Warn(_) => None,
            Action::ReportStatus => None,
            _ => Some(Failure::Backend),
        }
    }
}

/// What the first `n` steps of a list end with, `done[i]` saying whether
/// step `i` went well: the failure of the first step that stops them; the
/// steps behind it are not performed.
pub open spec fn first_failure(actions: Seq<ActionView>, done: Seq<bool>, n: nat) -> Option<
    Failure,
>
    decreases n,
{
    if n == 0 {
        None
    } else {
        match first_failure(actions, done, (n - 1) as nat) {
            Some(failure) => Some(failure),
            None => spec_after_action(actions[n - 1], done[n - 1]),
        }
    }
}

/// The closing of a session, a flush and then a report of the status, fails
/// exactly where the flush fails: a failed report does not fail it.
pub proof fn lemma_close_fails_with_flush(done: Seq<bool>)
    requires
        done.len() == 2,
    ensures
        first_failure(seq![ActionView::Flush, ActionView::ReportStatus], done, 2) == if done[0] {
            None
        } else {
            Some(Failure::Backend)
        },
{
    reveal_with_fuel(first_failure, 3);
}

/// Steps that all go well end without a failure.
pub proof fn lemma_no_failure_where_all_goes_well(
    actions: Seq<ActionView>,
    done: Seq<bool>,
    n: nat,
)
    requires
        n <= done.len(),
        forall|i: int| 0 <= i < n ==> done[i],
    ensures
        first_failure(actions, done, n) is None,
    decreases n,
{
    if n > 0 {
        lemma_no_failure_where_all_goes_well(actions, done, (n - 1) as nat);
    }
}

/// What the loop ends with once the session has been closed: the failure
/// that led to the closing, where there is one, whether the closing went
/// well or not; else the failure of the closing; else success.
pub open spec fn spec_after_close(failure: Option<Failure>, closed: bool) -> Result<(), Failure> {
    match failure {
        Some(first) => Err(first),
        None => if closed {
            Ok(())
        } else {
            Err(Failure::Backend)
        },
    }
}

/// What the loop ends with once the session has been closed.
pub fn after_close(failure: Option<Failure>, closed: bool) -> (r: Result<(), Failure>)
    ensures
        r == spec_after_close(failure, closed),
{
    match failure {
        Some(first) => Err(first),
        None => if closed {
            Ok(())
        } else {
            Err(Failure::Backend)
        },
    }
}

/// What came first: an interrupt, or the end of the loop.
#[derive(Clone, Copy, Debug, PartialEq, Eq, Structural)]
pub enum Race {
    Interrupted,
    /// The loop has ended, with this failure or, where there is none, with
    /// success.
    Completed { failure: Option<Failure> },
}

/// How the process ends.
#[derive(Clone, Copy, Debug, PartialEq, Eq, Structural)]
pub enum Exit {
    /// Cancel the loop and end with success.
    CancelAndSucceed,
    Succeed,
    Fail { failure: Failure },
}

/// How the process ends: an interrupt cancels the loop and is no error; the
/// end of the loop is the end of the process, with the loop's result.
pub open spec fn spec_after_race(race: Race) -> Exit {
    match race {
        Race::Interrupted => Exit::CancelAndSucceed,
        Race::Completed { failure: None } => Exit::Succeed,
        Race::Completed { failure: Some(failure) } => Exit::Fail { failure },
    }
}

/// How the process ends.
pub fn after_race(race: Race) -> (exit: Exit)
    ensures
        exit == spec_after_race(race),
{
    match race {
        Race::Interrupted => Exit::CancelAndSucceed,
        Race::Completed { failure: None } => Exit::Succeed,
        Race::Completed { failure: Some(failure) } => Exit::Fail { failure },
    }
}

/// Every failure of the loop is preceded by the closing of the session, and
/// the failure that the loop ends with is the first one met.
pub proof fn lemma_first_failure_wins(first: Failure, closed: bool)
    ensures
        spec_after_close(Some(first), closed) == Err::<(), Failure>(first),
        spec_after_source(SourceEvent::DecodeFailed) == (Step::Close {
            failure: Some(Failure::Decode),
        }),
        spec_after_handle(false) == Some(Step::Close { failure: Some(Failure::Backend) }),
{
}

} // verus!
