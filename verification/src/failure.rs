//! What can go wrong, and what each failure means for the process.

use vstd::prelude::*;

verus! {

/// How the server treats the failures that it could survive.
#[derive(Clone, Copy, Debug, PartialEq, Eq, Structural)]
pub enum Policy {
    /// Every failure ends the process.
    Strict,
    /// A failed accept, read or write is reported and the server goes on.
    Defensive,
}

/// The operation that failed.
#[derive(Clone, Copy, Debug, PartialEq, Eq, Structural)]
pub enum Failure {
    /// The port text writes no port.
    InvalidPort,
    /// The address could not be bound.
    Bind,
    /// No connection could be accepted.
    Accept,
    /// The request could not be read.
    Read,
    /// The response could not be written.
    Write,
    /// The output could not be flushed.
    Flush,
}

/// What a failure means for the process.
#[derive(Clone, Copy, Debug, PartialEq, Eq, Structural)]
pub enum Severity {
    /// The process ends before it serves anything.
    FatalStartup,
    /// The process ends while it serves.
    FatalIo,
    /// The failure is reported and the server goes on.
    Recoverable,
}

/// The severity of a failure under a policy. A failure at startup and a
/// failed flush end the process under either policy; a failed accept, read
/// or write ends it under the strict policy alone.
pub open spec fn severity_of(policy: Policy, failure: Failure) -> Severity {
    match failure {
        Failure::InvalidPort => Severity::FatalStartup,
        Failure::Bind => Severity::FatalStartup,
        Failure::Flush => Severity::FatalIo,
        _ => match policy {
            Policy::Strict => Severity::FatalIo,
            Policy::Defensive => Severity::Recoverable,
        },
    }
}

/// Does the server survive this failure under this policy?
pub open spec fn survives(policy: Policy, failure: Failure) -> bool {
    severity_of(policy, failure) == Severity::Recoverable
}

/// The severity of a failure under a policy.
pub fn classify(policy: Policy, failure: Failure) -> (r: Severity)
    ensures
        r == severity_of(policy, failure),
{
    match failure {
        Failure::InvalidPort => Severity::FatalStartup,
        Failure::Bind => Severity::FatalStartup,
        Failure::Flush => Severity::FatalIo,
        _ => match policy {
            Policy::Strict => Severity::FatalIo,
            Policy::Defensive => Severity::Recoverable,
        },
    }
}

/// The strict policy survives nothing, and the defensive policy survives a
/// failed accept, read or write and nothing else.
pub proof fn lemma_what_is_survived(policy: Policy, failure: Failure)
    ensures
        survives(policy, failure) <==> policy == Policy::Defensive && (failure == Failure::Accept
            || failure == Failure::Read || failure == Failure::Write),
{
}

} // verus!
