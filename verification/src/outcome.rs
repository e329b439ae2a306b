//! Why a session ended, and what can go wrong on the way.

use vstd::prelude::*;
use vstd::string::StringExecFns;

verus! {

/// The kinds of failure that a session knows.
#[derive(Clone, Copy, Debug, PartialEq, Eq, Structural)]
pub enum SessionError {
    /// Events could no longer be received from the gateway. Fatal.
    GatewaySubscription,
    /// A notice could not be sent into the thread. Reported and then passed
    /// over: the timer goes on as if the notice had arrived.
    Delivery,
    /// The consumer is gone: the relay queue was closed. Fatal.
    QueueClosed,
    /// A duration was not positive or an identifier was missing. Fatal, and
    /// found before the session starts.
    Configuration,
}

impl SessionError {
    /// Whether this failure ends the session.
    pub open spec fn fatal(self) -> bool {
        self != SessionError::Delivery
    }

    /// The word under which this failure is reported.
    pub fn tag(&self) -> (tag: String)
        ensures
            tag@ == error_tag(*self),
    {
        match self {
            SessionError::GatewaySubscription => String::from_str("GatewaySubscriptionError"),
            SessionError::Delivery => String::from_str("DeliveryError"),
            SessionError::QueueClosed => String::from_str("QueueClosedError"),
            SessionError::Configuration => String::from_str("ConfigurationError"),
        }
    }

    /// Whether this failure ends the session.
    pub fn is_fatal(&self) -> (fatal: bool)
        ensures
            fatal == self.fatal(),
    {
        match self {
            SessionError::Delivery => false,
            _ => true,
        }
    }
}

/// Why a session could not be set up.
#[derive(Clone, Copy, Debug, PartialEq, Eq, Structural)]
pub enum ConfigurationError {
    /// The time before the warning is zero.
    WarningNotPositive,
    /// The time between the warning and the end is zero.
    TimeoutNotPositive,
    /// No thread to watch was named.
    MissingThread,
    /// The automated identity is not known.
    MissingIdentity,
    /// A text that should name a duration names none, or one too long for
    /// the clock.
    InvalidDuration,
}

/// Why a session ended. `TimeoutWarning` ends nothing: it reports that the
/// warning was given and the session goes on.
#[derive(Clone, Copy, Debug, PartialEq, Eq, Structural)]
pub enum SessionOutcome {
    /// The gateway is done with the thread: it was archived, locked or
    /// deleted, or the connection ended.
    GatewayClosed,
    /// The consumer stopped asking for messages.
    ConsumerExhausted,
    /// The inactivity warning was given.
    TimeoutWarning,
    /// Nothing arrived until the final deadline.
    TimeoutFired,
    /// A fatal failure.
    Error(SessionError),
}

impl ConfigurationError {
    /// How a session that could not be set up is reported: as ended by a
    /// failure of its configuration.
    pub fn outcome(&self) -> (outcome: SessionOutcome)
        ensures
            outcome == SessionOutcome::Error(SessionError::Configuration),
    {
        SessionOutcome::Error(SessionError::Configuration)
    }
}

/// The word under which a failure is reported.
pub open spec fn error_tag(error: SessionError) -> Seq<char> {
    match error {
        SessionError::GatewaySubscription => "GatewaySubscriptionError"@,
        SessionError::Delivery => "DeliveryError"@,
        SessionError::QueueClosed => "QueueClosedError"@,
        SessionError::Configuration => "ConfigurationError"@,
    }
}

/// The words under which an outcome is reported: its name, and behind the
/// name of `Error` the failure in brackets.
pub open spec fn outcome_tag(outcome: SessionOutcome) -> Seq<char> {
    match outcome {
        SessionOutcome::GatewayClosed => "GatewayClosed"@,
        SessionOutcome::ConsumerExhausted => "ConsumerExhausted"@,
        SessionOutcome::TimeoutWarning => "TimeoutWarning"@,
        SessionOutcome::TimeoutFired => "TimeoutFired"@,
        SessionOutcome::Error(error) => "Error("@ + error_tag(error) + ")"@,
    }
}

impl SessionOutcome {
    /// Whether this outcome ends the session.
    pub open spec fn terminal(self) -> bool {
        self != SessionOutcome::TimeoutWarning
    }

    /// The words under which this outcome is reported.
    pub fn tag(&self) -> (tag: String)
        ensures
            tag@ == outcome_tag(*self),
    {
        match self {
            SessionOutcome::GatewayClosed => String::from_str("GatewayClosed"),
            SessionOutcome::ConsumerExhausted => String::from_str("ConsumerExhausted"),
            SessionOutcome::TimeoutWarning => String::from_str("TimeoutWarning"),
            SessionOutcome::TimeoutFired => String::from_str("TimeoutFired"),
            SessionOutcome::Error(error) => {
                let mut tag = String::from_str("Error(");
                tag.append(error.tag().as_str());
                tag.append(")");
                tag
            },
        }
    }

    /// Whether this outcome ends the session.
    pub fn is_terminal(&self) -> (terminal: bool)
        ensures
            terminal == self.terminal(),
    {
        match self {
            SessionOutcome::TimeoutWarning => false,
            _ => true,
        }
    }
}

} // verus!
