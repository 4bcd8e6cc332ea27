//! The ordered setup stages and the guard that gates every wizard request.

use vstd::prelude::*;

verus! {

/// One named step of the ordered setup sequence.
///
/// The fixed order is General, Security, Storage, then either
/// ExistingStorage or AccountCreation depending on the provisioning
/// outcome, and finally Finished.
#[derive(Clone, Copy, Debug, PartialEq, Eq, Structural)]
pub enum SetupStage {
    General,
    Security,
    Storage,
    ExistingStorage,
    AccountCreation,
    Finished,
}

impl SetupStage {
    /// Position of the stage in the fixed setup order.
    pub open spec fn index(self) -> int {
        match self {
            SetupStage::General => 0,
            SetupStage::Security => 1,
            SetupStage::Storage => 2,
            SetupStage::ExistingStorage => 3,
            SetupStage::AccountCreation => 4,
            SetupStage::Finished => 5,
        }
    }

    /// The transitions a successful submission may take. The branch after
    /// Storage depends on the provisioning outcome, so both ExistingStorage
    /// and AccountCreation are valid successors of Storage; at
    /// ExistingStorage the operator chooses between reset (to
    /// AccountCreation) and migrate (to Finished).
    pub open spec fn may_advance_to(self, next: SetupStage) -> bool {
        match self {
            SetupStage::General => next == SetupStage::Security,
            SetupStage::Security => next == SetupStage::Storage,
            SetupStage::Storage => next == SetupStage::ExistingStorage
                || next == SetupStage::AccountCreation,
            SetupStage::ExistingStorage => next == SetupStage::AccountCreation
                || next == SetupStage::Finished,
            SetupStage::AccountCreation => next == SetupStage::Finished,
            SetupStage::Finished => false,
        }
    }

    /// The lowercase name of the stage, as a sequence of characters.
    pub open spec fn name_spec(self) -> Seq<char> {
        match self {
            SetupStage::General => "general"@,
            SetupStage::Security => "security"@,
            SetupStage::Storage => "storage"@,
            SetupStage::ExistingStorage => "existingstorage"@,
            SetupStage::AccountCreation => "accountcreation"@,
            SetupStage::Finished => "finished"@,
        }
    }

    /// The route of the stage's page, as a sequence of characters.
    pub open spec fn path_spec(self) -> Seq<char> {
        match self {
            SetupStage::General => "/general"@,
            SetupStage::Security => "/security"@,
            SetupStage::Storage => "/storage"@,
            SetupStage::ExistingStorage => "/existingstorage"@,
            SetupStage::AccountCreation => "/accountcreation"@,
            SetupStage::Finished => "/finished"@,
        }
    }

    /// The lowercase name of the stage, as used in the wizard's routes.
    pub fn lowercase_name(&self) -> (r: String)
        ensures
            r@ == self.name_spec(),
    {
        match self {
            SetupStage::General => String::from_str("general"),
            SetupStage::Security => String::from_str("security"),
            SetupStage::Storage => String::from_str("storage"),
            SetupStage::ExistingStorage => String::from_str("existingstorage"),
            SetupStage::AccountCreation => String::from_str("accountcreation"),
            SetupStage::Finished => String::from_str("finished"),
        }
    }

    /// The route of the stage's page: a slash followed by the lowercase name.
    pub fn path(&self) -> (r: String)
        ensures
            r@ == self.path_spec(),
    {
        match self {
            SetupStage::General => String::from_str("/general"),
            SetupStage::Security => String::from_str("/security"),
            SetupStage::Storage => String::from_str("/storage"),
            SetupStage::ExistingStorage => String::from_str("/existingstorage"),
            SetupStage::AccountCreation => String::from_str("/accountcreation"),
            SetupStage::Finished => String::from_str("/finished"),
        }
    }
}

/// One persisted-stage change a submission is allowed to make: stay put,
/// advance along the fixed order, or — only from Finished — commit, after
/// which no stage is recorded and none may ever reappear.
pub open spec fn stage_step_ok(before: Option<SetupStage>, after: Option<SetupStage>) -> bool {
    match (before, after) {
        (Some(p), Some(q)) => p == q || p.may_advance_to(q),
        (Some(p), None) => p == SetupStage::Finished,
        (None, a) => a is None,
    }
}

/// What the guard decides about a request for a wizard page.
#[derive(Clone, Copy, Debug, PartialEq, Eq, Structural)]
pub enum Decision {
    /// The request is for the true current stage: serve it.
    Proceed,
    /// The request is for another stage: bounce to the true current stage.
    RedirectTo(SetupStage),
    /// No authenticated session, or setup already finished: turn away.
    Reject,
}

/// What `guard` returns, as a function of its arguments.
pub open spec fn spec_guard(
    authenticated: bool,
    requested: SetupStage,
    persisted: Option<SetupStage>,
) -> Decision {
    if !authenticated {
        Decision::Reject
    } else {
        match persisted {
            None => Decision::Reject,
            Some(p) => if requested == p {
                Decision::Proceed
            } else {
                Decision::RedirectTo(p)
            },
        }
    }
}

/// The pure stage guard: decides whether a request for `requested` may
/// proceed, given whether a session is authenticated and which stage is
/// persisted. A persisted stage of `None` means setup already finished,
/// so the wizard routes are rejected outright.
pub fn guard(
    authenticated: bool,
    requested: SetupStage,
    persisted: Option<SetupStage>,
) -> (r: Decision)
    ensures
        r == spec_guard(authenticated, requested, persisted),
{
    if !authenticated {
        Decision::Reject
    } else {
        match persisted {
            None => Decision::Reject,
            Some(p) => {
                if requested == p {
                    Decision::Proceed
                } else {
                    Decision::RedirectTo(p)
                }
            },
        }
    }
}

/// Guard idempotence: with an authenticated session, asking for the stage
/// that is persisted always yields `Proceed`. The guard is a pure function,
/// so the decision is the same however often it is consulted.
pub proof fn lemma_guard_idempotent(s: SetupStage)
    ensures
        spec_guard(true, s, Some(s)) == Decision::Proceed,
{
}

/// Stage monotonicity: every transition the wizard may take moves strictly
/// forward in the fixed stage order.
pub proof fn lemma_advance_monotonic(s1: SetupStage, s2: SetupStage)
    requires
        s1.may_advance_to(s2),
    ensures
        s1.index() < s2.index(),
{
}

} // verus!
