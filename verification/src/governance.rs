//! Whether the node may act as a registrar.
//!
//! The node does not decide that by itself. It holds a view of what was decided, and registers
//! nothing unless the view says that it is active.

use crate::error::{self, ApiError};
use vstd::prelude::*;

verus! {

/// What the node's own view of its governance says of it.
#[derive(Clone, Copy, Debug, PartialEq, Eq, Structural)]
pub enum GovernanceView {
    Active,
    Inactive,
    Revoked,
    /// The view is too old to say.
    Stale,
}

/// Whether the node may act as a registrar, by its view.
pub open spec fn governance_verdict(view: GovernanceView) -> error::Answer<()> {
    match view {
        GovernanceView::Active => Ok(()),
        GovernanceView::Inactive => Err(error::forbidden("registrar_inactive"@)),
        GovernanceView::Revoked => Err(error::forbidden("registrar_revoked"@)),
        GovernanceView::Stale => Err(error::forbidden("registrar_governance_view_stale"@)),
    }
}

/// Checks that the node may act as a registrar.
pub fn check_governance(view: &GovernanceView) -> (result: Result<(), ApiError>)
    ensures
        result is Ok <==> *view is Active,
        error::verdict(result) == governance_verdict(*view),
{
    match view {
        GovernanceView::Active => Ok(()),
        GovernanceView::Inactive => Err(ApiError::forbidden("registrar_inactive")),
        GovernanceView::Revoked => Err(ApiError::forbidden("registrar_revoked")),
        GovernanceView::Stale => Err(ApiError::forbidden("registrar_governance_view_stale")),
    }
}

/// A registrar that is not active is told why it may not act, each time in words of their own.
pub proof fn law_idle_registrars_are_told_why()
    ensures
        governance_verdict(GovernanceView::Active) == Ok::<(), error::Refusal>(()),
        governance_verdict(GovernanceView::Inactive) == Err::<(), error::Refusal>(
            error::Refusal { status: 403, message: "registrar_inactive"@ },
        ),
        governance_verdict(GovernanceView::Revoked) == Err::<(), error::Refusal>(
            error::Refusal { status: 403, message: "registrar_revoked"@ },
        ),
        governance_verdict(GovernanceView::Stale) == Err::<(), error::Refusal>(
            error::Refusal { status: 403, message: "registrar_governance_view_stale"@ },
        ),
{
}

} // verus!
