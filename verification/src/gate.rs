//! The access gate: the role check behind a route.
//!
//! A route names at most one required role. A subject passes when the role on
//! its record is that very text. A subject without a role passes no gate
//! that requires one.

use crate::bearer::slice_view;
use crate::error::{public_text, status_of, AuthError, RoleDenial};
use crate::reply::{Refusal, RefusalView};
use crate::text::same_text;
use crate::validator::AuthenticatedContext;
use vstd::prelude::*;

verus! {

/// Whether a subject in `role` may use a route that requires `required`.
pub open spec fn permitted(role: Option<Seq<char>>, required: Option<Seq<char>>) -> bool {
    match required {
        Some(r) => role == Some(r),
        None => true,
    }
}

/// Whether a subject in `role` may use a route that requires `required`.
pub fn permits(role: &Option<String>, required: Option<&str>) -> (r: bool)
    ensures
        r == permitted(crate::store::text_view(*role), slice_view(required)),
{
    match required {
        None => true,
        Some(needed) => match role {
            Some(held) => same_text(held.as_str(), needed),
            None => false,
        },
    }
}

/// How a denial at a gate that requires `required` is answered.
pub open spec fn denial(required: Seq<char>, choice: RoleDenial) -> RefusalView {
    RefusalView {
        status: status_of(AuthError::InsufficientRole, choice),
        message: public_text(AuthError::InsufficientRole, Some(required)),
    }
}

/// The mathematical value of a gate's verdict.
pub open spec fn verdict_view(r: Result<(), Refusal>) -> Option<RefusalView> {
    match r {
        Ok(_) => None,
        Err(e) => Some(e@),
    }
}

/// What the access gate for `required` says to a subject in `role`.
pub open spec fn gate_verdict(role: Option<Seq<char>>, required: Seq<char>, choice: RoleDenial) -> Option<
    RefusalView,
> {
    if role == Some(required) {
        None
    } else {
        Some(denial(required, choice))
    }
}

/// The access gate of a route that requires the role `required`.
pub fn access_gate(context: &AuthenticatedContext, required: &str, choice: RoleDenial) -> (r: Result<
    (),
    Refusal,
>)
    ensures
        verdict_view(r) == gate_verdict(context@.role, required@, choice),
{
    if permits(&context.role, Some(required)) {
        Ok(())
    } else {
        Err(
            Refusal {
                status: AuthError::InsufficientRole.status(choice),
                message: AuthError::InsufficientRole.public_message(Some(required)),
            },
        )
    }
}

/// The access gate of the routes reserved to administrators.
pub fn admin_middleware(context: &AuthenticatedContext, choice: RoleDenial) -> (r: Result<(), Refusal>)
    ensures
        verdict_view(r) == gate_verdict(context@.role, "admin"@, choice),
{
    access_gate(context, "admin", choice)
}

/// The access gate of the routes reserved to relief organisations.
pub fn ngo_middleware(context: &AuthenticatedContext, choice: RoleDenial) -> (r: Result<(), Refusal>)
    ensures
        verdict_view(r) == gate_verdict(context@.role, "ngo"@, choice),
{
    access_gate(context, "ngo", choice)
}

/// The access gate of the routes reserved to local authorities.
pub fn local_middleware(context: &AuthenticatedContext, choice: RoleDenial) -> (r: Result<(), Refusal>)
    ensures
        verdict_view(r) == gate_verdict(context@.role, "local"@, choice),
{
    access_gate(context, "local", choice)
}

/// The access gate of the routes reserved to community members.
pub fn community_middleware(context: &AuthenticatedContext, choice: RoleDenial) -> (r: Result<
    (),
    Refusal,
>)
    ensures
        verdict_view(r) == gate_verdict(context@.role, "community"@, choice),
{
    access_gate(context, "community", choice)
}

/// An access gate lets a subject through exactly when its role is the
/// required one; a subject without a role is let through by none.
pub proof fn gate_is_exact(role: Option<Seq<char>>, required: Seq<char>, choice: RoleDenial)
    ensures
        gate_verdict(role, required, choice) is None <==> role == Some(required),
        role is None ==> gate_verdict(role, required, choice) is Some,
{
}

} // verus!
