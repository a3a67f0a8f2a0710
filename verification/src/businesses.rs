//! Commands for businesses and the resources that administer business access.

use vstd::prelude::*;

verus! {

/// The business commands of the CLI.
#[derive(Clone, Copy, Debug, PartialEq, Eq, Structural)]
pub enum BusinessCommandKind {
    List,
    Create,
    Get,
    BillingStatus,
    BillingSetup,
    MembersList,
    MembersUpdate,
    MembersRemove,
    InvitationsList,
    InvitationsCreate,
    InvitationsCancel,
}

/// Whether a business command calls the public API. Only those commands
/// authenticate; opening the billing setup page in the browser does not.
pub open spec fn spec_calls_api(kind: BusinessCommandKind) -> bool {
    kind != BusinessCommandKind::BillingSetup
}

/// Every business command but billing setup calls the API and so
/// authenticates; billing setup only opens the website.
pub proof fn lemma_only_billing_setup_skips_the_api(kind: BusinessCommandKind)
    ensures
        spec_calls_api(kind) == !(kind is BillingSetup),
        spec_calls_api(BusinessCommandKind::List),
        spec_calls_api(BusinessCommandKind::Create),
        spec_calls_api(BusinessCommandKind::Get),
        spec_calls_api(BusinessCommandKind::BillingStatus),
        !spec_calls_api(BusinessCommandKind::BillingSetup),
        spec_calls_api(BusinessCommandKind::MembersList),
        spec_calls_api(BusinessCommandKind::MembersUpdate),
        spec_calls_api(BusinessCommandKind::MembersRemove),
        spec_calls_api(BusinessCommandKind::InvitationsList),
        spec_calls_api(BusinessCommandKind::InvitationsCreate),
        spec_calls_api(BusinessCommandKind::InvitationsCancel),
{
}

impl BusinessCommandKind {
    /// Whether the command calls the public API, and so needs the saved
    /// credential.
    pub fn calls_api(&self) -> (r: bool)
        ensures
            r == spec_calls_api(*self),
            r == !(*self is BillingSetup),
    {
        match self {
            BusinessCommandKind::BillingSetup => false,
            _ => true,
        }
    }
}

} // verus!
