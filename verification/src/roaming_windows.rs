//! The correlation of adapter notifications into roam and reconnect
//! outcomes.
//!
//! A roam starts with the media-state notification that roaming began and a
//! reconnect with the connection manager's notification that a connection
//! attempt began. What follows decides the result: a clean success, a success
//! after authentication was retried, or a failure. The engine holds one state,
//! folds every notification through `transition`, reports an outcome when a
//! terminal state is reached and then rests again.

use crate::error::WlanError;
use crate::roaming::{Outcome, OutcomeResult, ReconnectEvent, RoamEvent, UxiRoamEvent};
use crate::retry_count::RetryCount;
use crate::text::decimal;
use crate::windows_type_wrappers::{
    AcmNotifcationType, MsmNotifcationType, WlanNotificationWrapper,
};
use vstd::prelude::*;
use vstd::std_specs::convert::TryFromSpecImpl;

verus! {

/// How far a roam or a reconnect has come.
#[derive(Debug, Clone, PartialEq, Eq)]
pub enum ConnectionState {
    AttempingConnection,
    /// Authentication is under way; the number counts its retries.
    Authenticating(RetryCount),
    UnqualifiedSuccess,
    QualifiedSuccess(Vec<String>),
    Failed(Vec<String>),
}

/// The state of the correlation engine.
#[derive(Debug, Clone, PartialEq, Eq)]
pub enum AccessPointTransitionState {
    Init,
    Roam(ConnectionState),
    Reconnect(ConnectionState),
}

/// The mathematical form of `ConnectionState`: the retry count is a natural
/// number and the notes are texts.
pub enum ConnectionPhase {
    Attempting,
    Authenticating(nat),
    SucceededClean,
    SucceededWithNotes(Seq<Seq<char>>),
    Failed(Seq<Seq<char>>),
}

/// The mathematical form of `AccessPointTransitionState`.
pub enum CorrelationState {
    Idle,
    Roaming(ConnectionPhase),
    Reconnecting(ConnectionPhase),
}

impl View for ConnectionState {
    type V = ConnectionPhase;

    open spec fn view(&self) -> ConnectionPhase {
        match *self {
            ConnectionState::AttempingConnection => ConnectionPhase::Attempting,
            ConnectionState::Authenticating(retries) => ConnectionPhase::Authenticating(retries@),
            ConnectionState::UnqualifiedSuccess => ConnectionPhase::SucceededClean,
            ConnectionState::QualifiedSuccess(notes) => ConnectionPhase::SucceededWithNotes(
                notes.deep_view(),
            ),
            ConnectionState::Failed(notes) => ConnectionPhase::Failed(notes.deep_view()),
        }
    }
}

impl View for AccessPointTransitionState {
    type V = CorrelationState;

    open spec fn view(&self) -> CorrelationState {
        match *self {
            AccessPointTransitionState::Init => CorrelationState::Idle,
            AccessPointTransitionState::Roam(phase) => CorrelationState::Roaming(phase@),
            AccessPointTransitionState::Reconnect(phase) => CorrelationState::Reconnecting(phase@),
        }
    }
}

impl ConnectionPhase {
    /// Whether the phase ends a roam or a reconnect.
    pub open spec fn is_terminal(self) -> bool {
        self is SucceededClean || self is SucceededWithNotes || self is Failed
    }

    /// The result that a terminal phase stands for.
    pub open spec fn result(self) -> Option<OutcomeResult> {
        match self {
            ConnectionPhase::SucceededClean => Some(OutcomeResult::Clean),
            ConnectionPhase::SucceededWithNotes(notes) => Some(OutcomeResult::WithNotes(notes)),
            ConnectionPhase::Failed(notes) => Some(OutcomeResult::Failed(notes)),
            _ => None,
        }
    }
}

impl CorrelationState {
    /// Whether the state is terminal: its phase ends the roam or reconnect.
    /// The rest state is never terminal.
    pub open spec fn is_terminal(self) -> bool {
        match self {
            CorrelationState::Idle => false,
            CorrelationState::Roaming(phase) => phase.is_terminal(),
            CorrelationState::Reconnecting(phase) => phase.is_terminal(),
        }
    }

    /// The outcome that a terminal state is reported as; a state that is
    /// not terminal has none.
    pub open spec fn outcome(self) -> Option<Outcome> {
        match self {
            CorrelationState::Idle => None,
            CorrelationState::Roaming(phase) => match phase.result() {
                Some(result) => Some(Outcome::Roam(result)),
                None => None,
            },
            CorrelationState::Reconnecting(phase) => match phase.result() {
                Some(result) => Some(Outcome::Reconnect(result)),
                None => None,
            },
        }
    }
}

/// What the engine sees of a notification.
pub enum Stimulus {
    RoamingStart,
    Authenticating,
    RoamingEnd,
    MediaDisconnected,
    ConnectionStart,
    /// The connection attempt completed, with its success.
    ConnectionComplete(bool),
    /// Any other notification.
    Unrelated,
}

/// What the engine sees of a notification: four media-state notifications
/// and two of the connection manager matter, and of a completed connection
/// only whether it succeeded.
pub open spec fn stimulus_of(event: WlanNotificationWrapper) -> Stimulus {
    match event {
        WlanNotificationWrapper::Msm(MsmNotifcationType::RoamingStart(_)) => Stimulus::RoamingStart,
        WlanNotificationWrapper::Msm(MsmNotifcationType::Authenticating(_)) => {
            Stimulus::Authenticating
        },
        WlanNotificationWrapper::Msm(MsmNotifcationType::RoamingEnd(_)) => Stimulus::RoamingEnd,
        WlanNotificationWrapper::Msm(MsmNotifcationType::Disconnected(_)) => {
            Stimulus::MediaDisconnected
        },
        WlanNotificationWrapper::Acm(AcmNotifcationType::ConnectionStart(_)) => {
            Stimulus::ConnectionStart
        },
        WlanNotificationWrapper::Acm(AcmNotifcationType::ConnectionComplete(data)) => {
            Stimulus::ConnectionComplete(data.success())
        },
        _ => Stimulus::Unrelated,
    }
}

/// The note of a success after `n` retries of authentication.
pub open spec fn retries_note(n: nat) -> Seq<char> {
    decimal(n) + " auth retries"@
}

/// The note of a roam that failed after `n` retries of authentication.
pub open spec fn roam_failed_note(n: nat) -> Seq<char> {
    "Roam failed after "@ + decimal(n) + " retries"@
}

/// The note of a reconnect that failed after `n` retries of authentication.
pub open spec fn reconnect_failed_note(n: nat) -> Seq<char> {
    "Failed after "@ + decimal(n) + " retries"@
}

/// The phase of a success after `n` retries: clean without retries,
/// otherwise with the note that counts them.
pub open spec fn success_after(n: nat) -> ConnectionPhase {
    if n == 0 {
        ConnectionPhase::SucceededClean
    } else {
        ConnectionPhase::SucceededWithNotes(seq![retries_note(n)])
    }
}

/// The transition table. `None` means that the notification is ignored in
/// this state.
pub open spec fn transition(state: CorrelationState, stimulus: Stimulus) -> Option<
    CorrelationState,
> {
    match (state, stimulus) {
        (CorrelationState::Idle, Stimulus::RoamingStart) => Some(
            CorrelationState::Roaming(ConnectionPhase::Attempting),
        ),
        (CorrelationState::Roaming(ConnectionPhase::Attempting), Stimulus::Authenticating) => Some(
            CorrelationState::Roaming(ConnectionPhase::Authenticating(0)),
        ),
        // A roam that ends in a disconnect before any authentication comes
        // from a manual disconnect or the radio being switched off: no roam
        // at all.
        (CorrelationState::Roaming(ConnectionPhase::Attempting), Stimulus::MediaDisconnected) => {
            Some(CorrelationState::Idle)
        },
        (CorrelationState::Roaming(ConnectionPhase::Authenticating(n)), Stimulus::RoamingEnd) => {
            Some(CorrelationState::Roaming(success_after(n)))
        },
        (CorrelationState::Roaming(ConnectionPhase::Authenticating(n)), Stimulus::RoamingStart) => {
            Some(CorrelationState::Roaming(ConnectionPhase::Authenticating(n + 1)))
        },
        (
            CorrelationState::Roaming(ConnectionPhase::Authenticating(n)),
            Stimulus::MediaDisconnected,
        ) => Some(CorrelationState::Roaming(ConnectionPhase::Failed(seq![roam_failed_note(n)]))),
        (CorrelationState::Idle, Stimulus::ConnectionStart) => Some(
            CorrelationState::Reconnecting(ConnectionPhase::Attempting),
        ),
        (CorrelationState::Reconnecting(ConnectionPhase::Attempting), Stimulus::Authenticating) => {
            Some(CorrelationState::Reconnecting(ConnectionPhase::Authenticating(0)))
        },
        (
            CorrelationState::Reconnecting(ConnectionPhase::Authenticating(n)),
            Stimulus::ConnectionComplete(true),
        ) => Some(CorrelationState::Reconnecting(success_after(n))),
        (
            CorrelationState::Reconnecting(ConnectionPhase::Authenticating(n)),
            Stimulus::Authenticating,
        ) => Some(CorrelationState::Reconnecting(ConnectionPhase::Authenticating(n + 1))),
        (
            CorrelationState::Reconnecting(ConnectionPhase::Authenticating(n)),
            Stimulus::ConnectionComplete(false),
        ) => Some(
            CorrelationState::Reconnecting(ConnectionPhase::Failed(seq![reconnect_failed_note(n)])),
        ),
        _ => None,
    }
}

impl Default for AccessPointTransitionState {
    /// The rest state.
    fn default() -> (state: Self)
        ensures
            state == AccessPointTransitionState::Init,
    {
        AccessPointTransitionState::Init
    }
}

impl AccessPointTransitionState {
    /// Whether the state ends a roam or a reconnect.
    pub fn is_terminal(&self) -> (terminal: bool)
        ensures
            terminal == self@.is_terminal(),
    {
        match self {
            AccessPointTransitionState::Reconnect(state)
            | AccessPointTransitionState::Roam(state) => match state {
                ConnectionState::UnqualifiedSuccess => true,
                ConnectionState::QualifiedSuccess(_) => true,
                ConnectionState::Failed(_) => true,
                _ => false,
            },
            AccessPointTransitionState::Init => false,
        }
    }
}

/// The note of a success after `n` retries.
fn retries_note_text(n: &RetryCount) -> (note: String)
    ensures
        note@ == retries_note(n@),
{
    let mut note = String::new();
    n.push_decimal(&mut note);
    note.append(" auth retries");
    assert(note@ =~= retries_note(n@));
    note
}

/// The note of a failure after `n` retries, behind the given opening words.
fn failed_note_text(opening: &str, n: &RetryCount) -> (note: String)
    ensures
        note@ == opening@ + decimal(n@) + " retries"@,
{
    let mut note = String::from_str(opening);
    n.push_decimal(&mut note);
    note.append(" retries");
    note
}

/// The one note in a list.
fn single_note(note: String) -> (notes: Vec<String>)
    ensures
        notes.deep_view() == seq![note@],
{
    let mut notes: Vec<String> = Vec::new();
    notes.push(note);
    assert(notes.deep_view() =~= seq![note@]);
    notes
}

/// The views of an optional state.
pub open spec fn view_of(state: Option<AccessPointTransitionState>) -> Option<CorrelationState> {
    match state {
        Some(state) => Some(state@),
        None => None,
    }
}

/// The state that follows `current_state` on `event`, or `None` where the
/// notification is ignored in that state.
pub fn compute_transition(
    current_state: &AccessPointTransitionState,
    event: WlanNotificationWrapper,
) -> (next: Option<AccessPointTransitionState>)
    ensures
        view_of(next) == transition(current_state@, stimulus_of(event)),
{
    Some(
        match (current_state, event) {
            //Roaming
            (
                AccessPointTransitionState::Init,
                WlanNotificationWrapper::Msm(MsmNotifcationType::RoamingStart(_)),
            ) => AccessPointTransitionState::Roam(ConnectionState::AttempingConnection),
            (
                AccessPointTransitionState::Roam(roam_state),
                event,
            ) => AccessPointTransitionState::Roam(
                {
                    match (roam_state, event) {
                        (
                            ConnectionState::AttempingConnection,
                            WlanNotificationWrapper::Msm(MsmNotifcationType::Authenticating(_)),
                        ) => ConnectionState::Authenticating(RetryCount::new(0)),
                        (
                            ConnectionState::Authenticating(i),
                            WlanNotificationWrapper::Msm(MsmNotifcationType::RoamingEnd(_)),
                        ) => {
                            if i.is_zero() {
                                ConnectionState::UnqualifiedSuccess
                            } else {
                                ConnectionState::QualifiedSuccess(
                                    single_note(retries_note_text(i)),
                                )
                            }
                        },
                        (
                            ConnectionState::Authenticating(i),
                            WlanNotificationWrapper::Msm(MsmNotifcationType::RoamingStart(_)),
                        ) => ConnectionState::Authenticating(i.successor()),
                        (
                            ConnectionState::Authenticating(i),
                            WlanNotificationWrapper::Msm(MsmNotifcationType::Disconnected(_)),
                        ) => ConnectionState::Failed(
                            single_note(failed_note_text("Roam failed after ", i)),
                        ),
                        // a manual disconnect, or the radio switched off,
                        // also announces a roam
                        (
                            ConnectionState::AttempingConnection,
                            WlanNotificationWrapper::Msm(MsmNotifcationType::Disconnected(_)),
                        ) => {
                            return Some(AccessPointTransitionState::default());
                        },
                        _ => {
                            return None;
                        },
                    }
                },
            ),
            //Reconnect
            (
                AccessPointTransitionState::Init,
                WlanNotificationWrapper::Acm(AcmNotifcationType::ConnectionStart(_)),
            ) => AccessPointTransitionState::Reconnect(ConnectionState::AttempingConnection),
            (
                AccessPointTransitionState::Reconnect(reconnect_state),
                event,
            ) => AccessPointTransitionState::Reconnect(
                match (reconnect_state, event) {
                    (
                        ConnectionState::AttempingConnection,
                        WlanNotificationWrapper::Msm(MsmNotifcationType::Authenticating(_)),
                    ) => ConnectionState::Authenticating(RetryCount::new(0)),
                    (
                        ConnectionState::Authenticating(i),
                        WlanNotificationWrapper::Msm(MsmNotifcationType::Authenticating(_)),
                    ) => ConnectionState::Authenticating(i.successor()),
                    (
                        ConnectionState::Authenticating(i),
                        WlanNotificationWrapper::Acm(AcmNotifcationType::ConnectionComplete(data)),
                    ) => {
                        if !data.operation_success() {
                            ConnectionState::Failed(
                                single_note(failed_note_text("Failed after ", i)),
                            )
                        } else if i.is_zero() {
                            ConnectionState::UnqualifiedSuccess
                        } else {
                            ConnectionState::QualifiedSuccess(single_note(retries_note_text(i)))
                        }
                    },
                    _ => {
                        return None;
                    },
                },
            ),
            _ => {
                return None;
            },
        },
    )
}

/// The outcome that a terminal state is reported as, with the notes it
/// holds, or the error for a state that is not terminal.
pub open spec fn outcome_event(value: AccessPointTransitionState) -> Result<
    UxiRoamEvent,
    WlanError,
> {
    match value {
        AccessPointTransitionState::Roam(ConnectionState::UnqualifiedSuccess) => Ok(
            UxiRoamEvent::Roam(RoamEvent::NoErrors),
        ),
        AccessPointTransitionState::Roam(ConnectionState::QualifiedSuccess(notes)) => Ok(
            UxiRoamEvent::Roam(RoamEvent::SomeErrors(notes)),
        ),
        AccessPointTransitionState::Roam(ConnectionState::Failed(notes)) => Ok(
            UxiRoamEvent::Roam(RoamEvent::Disconnection(notes)),
        ),
        AccessPointTransitionState::Reconnect(ConnectionState::UnqualifiedSuccess) => Ok(
            UxiRoamEvent::Reconnect(ReconnectEvent::NoErrors),
        ),
        AccessPointTransitionState::Reconnect(ConnectionState::QualifiedSuccess(notes)) => Ok(
            UxiRoamEvent::Reconnect(ReconnectEvent::SomeErrors(notes)),
        ),
        AccessPointTransitionState::Reconnect(ConnectionState::Failed(notes)) => Ok(
            UxiRoamEvent::Reconnect(ReconnectEvent::Failed(notes)),
        ),
        _ => Err(WlanError::NotTerminal),
    }
}

impl TryFrom<AccessPointTransitionState> for UxiRoamEvent {
    type Error = WlanError;

    /// The outcome that a terminal state is reported as. A state that is
    /// not terminal is rejected.
    fn try_from(value: AccessPointTransitionState) -> (outcome: Result<Self, Self::Error>)
        ensures
            outcome == outcome_event(value),
            outcome is Ok <==> value@.is_terminal(),
            outcome matches Ok(event) ==> Some(event@) == value@.outcome(),
    {
        Ok(
            match value {
                AccessPointTransitionState::Roam(roam_state) => match roam_state {
                    ConnectionState::UnqualifiedSuccess => UxiRoamEvent::Roam(RoamEvent::NoErrors),
                    ConnectionState::QualifiedSuccess(errors) => UxiRoamEvent::Roam(
                        RoamEvent::SomeErrors(errors),
                    ),
                    ConnectionState::Failed(errors) => UxiRoamEvent::Roam(
                        RoamEvent::Disconnection(errors),
                    ),
                    _ => {
                        return Err(WlanError::NotTerminal);
                    },
                },
                AccessPointTransitionState::Reconnect(reconnect_state) => match reconnect_state {
                    ConnectionState::UnqualifiedSuccess => UxiRoamEvent::Reconnect(
                        ReconnectEvent::NoErrors,
                    ),
                    ConnectionState::QualifiedSuccess(errors) => UxiRoamEvent::Reconnect(
                        ReconnectEvent::SomeErrors(errors),
                    ),
                    ConnectionState::Failed(errors) => UxiRoamEvent::Reconnect(
                        ReconnectEvent::Failed(errors),
                    ),
                    _ => {
                        return Err(WlanError::NotTerminal);
                    },
                },
                _ => {
                    return Err(WlanError::NotTerminal);
                },
            },
        )
    }
}

impl TryFromSpecImpl<AccessPointTransitionState> for UxiRoamEvent {
    open spec fn obeys_try_from_spec() -> bool {
        true
    }

    open spec fn try_from_spec(value: AccessPointTransitionState) -> Result<Self, Self::Error> {
        outcome_event(value)
    }
}

/// One step of the engine: the state it holds afterwards and the outcome it
/// reports, if any. An ignored notification leaves the state as it is. A
/// transition into a terminal state reports that state's outcome and leaves
/// the engine at rest. Any other transition is adopted.
pub open spec fn step(state: CorrelationState, stimulus: Stimulus) -> (CorrelationState, Option<
    Outcome,
>) {
    match transition(state, stimulus) {
        None => (state, None),
        Some(next) => if next.is_terminal() {
            (CorrelationState::Idle, next.outcome())
        } else {
            (next, None)
        },
    }
}

/// The state of the engine after it was fed `events` in order, from `state`.
pub open spec fn state_after(
    state: CorrelationState,
    events: Seq<WlanNotificationWrapper>,
) -> CorrelationState
    decreases events.len(),
{
    if events.len() == 0 {
        state
    } else {
        step(state_after(state, events.drop_last()), stimulus_of(events.last())).0
    }
}

/// The views of an optional outcome.
pub open spec fn outcome_view(emitted: Option<UxiRoamEvent>) -> Option<Outcome> {
    match emitted {
        Some(event) => Some(event@),
        None => None,
    }
}

/// The correlation engine: it holds the current state, which is never
/// terminal, and is fed one notification at a time.
pub struct RoamingCorrelator {
    current_state: AccessPointTransitionState,
}

impl View for RoamingCorrelator {
    type V = CorrelationState;

    closed spec fn view(&self) -> CorrelationState {
        self.current_state@
    }
}

impl RoamingCorrelator {
    #[verifier::type_invariant]
    spec fn at_rest_or_in_progress(self) -> bool {
        !self.current_state@.is_terminal()
    }

    /// An engine at rest.
    pub fn new() -> (engine: Self)
        ensures
            engine@ == CorrelationState::Idle,
    {
        RoamingCorrelator { current_state: AccessPointTransitionState::default() }
    }

    /// The state that the engine holds.
    pub fn current_state(&self) -> (state: &AccessPointTransitionState)
        ensures
            state@ == self@,
            !self@.is_terminal(),
    {
        proof {
            use_type_invariant(self);
        }
        &self.current_state
    }

    /// Feeds one notification to the engine and returns the outcome that it
    /// reports, if the notification completes a roam or a reconnect.
    pub fn handle_notification(&mut self, event: WlanNotificationWrapper) -> (emitted: Option<
        UxiRoamEvent,
    >)
        ensures
            final(self)@ == step(old(self)@, stimulus_of(event)).0,
            outcome_view(emitted) == step(old(self)@, stimulus_of(event)).1,
            !final(self)@.is_terminal(),
    {
        proof {
            use_type_invariant(&*self);
        }
        if let Some(new_state) = compute_transition(&self.current_state, event) {
            if new_state.is_terminal() {
                let emitted = match UxiRoamEvent::try_from(new_state) {
                    Ok(to_send) => Some(to_send),
                    Err(_) => None,
                };
                self.current_state = AccessPointTransitionState::default();
                emitted
            } else {
                self.current_state = new_state;
                None
            }
        } else {
            None
        }
    }
}

/// Whatever notifications the engine is fed from rest, the state it holds
/// afterwards is the rest state or a roam or reconnect in progress, never a
/// terminal state.
pub proof fn lemma_state_never_terminal(events: Seq<WlanNotificationWrapper>)
    ensures
        !state_after(CorrelationState::Idle, events).is_terminal(),
    decreases events.len(),
{
    if events.len() > 0 {
        lemma_state_never_terminal(events.drop_last());
    }
}

/// A notification that the table does not name changes nothing, whatever
/// the state: the engine holds the same state afterwards and reports no
/// outcome.
pub proof fn lemma_unrelated_is_ignored(state: CorrelationState, event: WlanNotificationWrapper)
    requires
        stimulus_of(event) is Unrelated,
    ensures
        step(state, stimulus_of(event)) == (state, None::<Outcome>),
{
}

/// The shape of every transition. From rest a roam or a reconnect begins,
/// and nothing else. A roam stays a roam, but for the one that ends in a
/// disconnect before any authentication, which goes back to rest. A
/// reconnect stays a reconnect. A terminal state has no transition.
pub proof fn lemma_transition_shape(state: CorrelationState, stimulus: Stimulus)
    ensures
        state is Idle ==> (transition(state, stimulus) matches Some(next) ==> next
            == CorrelationState::Roaming(ConnectionPhase::Attempting) || next
            == CorrelationState::Reconnecting(ConnectionPhase::Attempting)),
        state is Roaming ==> (transition(state, stimulus) matches Some(next) ==> next is Roaming
            || (next is Idle && state == CorrelationState::Roaming(ConnectionPhase::Attempting)
            && stimulus is MediaDisconnected)),
        state is Reconnecting ==> (transition(state, stimulus) matches Some(next) ==> next
            is Reconnecting),
        state.is_terminal() ==> transition(state, stimulus) is None,
{
}

} // verus!
