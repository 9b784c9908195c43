//! The classified outcomes that are reported downstream.

use vstd::prelude::*;

verus! {

/// How a roam ended.
#[derive(Debug, Clone, PartialEq, Eq)]
pub enum RoamEvent {
    NoErrors,
    SomeErrors(Vec<String>),
    Disconnection(Vec<String>),
}

/// How a reconnect ended.
#[derive(Debug, Clone, PartialEq, Eq)]
pub enum ReconnectEvent {
    NoErrors,
    SomeErrors(Vec<String>),
    Failed(Vec<String>),
}

/// A classified outcome: a roam or a reconnect, with its result.
#[derive(Debug, Clone, PartialEq, Eq)]
pub enum UxiRoamEvent {
    Roam(RoamEvent),
    Reconnect(ReconnectEvent),
}

/// The result of a roam or a reconnect: clean, successful with notes, or
/// failed with notes. Notes are texts, in order.
pub enum OutcomeResult {
    Clean,
    WithNotes(Seq<Seq<char>>),
    Failed(Seq<Seq<char>>),
}

/// The mathematical form of a classified outcome.
pub enum Outcome {
    Roam(OutcomeResult),
    Reconnect(OutcomeResult),
}

impl View for RoamEvent {
    type V = OutcomeResult;

    open spec fn view(&self) -> OutcomeResult {
        match *self {
            RoamEvent::NoErrors => OutcomeResult::Clean,
            RoamEvent::SomeErrors(notes) => OutcomeResult::WithNotes(notes.deep_view()),
            RoamEvent::Disconnection(notes) => OutcomeResult::Failed(notes.deep_view()),
        }
    }
}

impl View for ReconnectEvent {
    type V = OutcomeResult;

    open spec fn view(&self) -> OutcomeResult {
        match *self {
            ReconnectEvent::NoErrors => OutcomeResult::Clean,
            ReconnectEvent::SomeErrors(notes) => OutcomeResult::WithNotes(notes.deep_view()),
            ReconnectEvent::Failed(notes) => OutcomeResult::Failed(notes.deep_view()),
        }
    }
}

impl View for UxiRoamEvent {
    type V = Outcome;

    open spec fn view(&self) -> Outcome {
        match *self {
            UxiRoamEvent::Roam(result) => Outcome::Roam(result@),
            UxiRoamEvent::Reconnect(result) => Outcome::Reconnect(result@),
        }
    }
}

} // verus!
