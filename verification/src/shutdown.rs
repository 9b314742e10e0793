//! The shutdown signal.

use tokio_util::sync::CancellationToken;
use vstd::prelude::*;

verus! {

/// `tokio_util::sync::CancellationToken`: a handle on a flag that can be raised once. Handles
/// on one flag are the same value.
#[verifier::external_type_specification]
#[verifier::external_body]
pub struct ExCancellationToken(CancellationToken);

/// Calls `CancellationToken::new`: a handle on a new flag that is not raised. Nothing is
/// claimed of the handle: the flag is no part of its value. `fresh` says that it came from here.
#[verifier::external_body]
pub(crate) fn new_token() -> CancellationToken {
    CancellationToken::new()
}

/// Calls `CancellationToken::clone`. Trusted: the copy is a handle on the same flag.
#[verifier::external_body]
pub(crate) fn clone_token(token: &CancellationToken) -> (copy: CancellationToken)
    ensures
        copy == *token,
{
    token.clone()
}

/// Calls `CancellationToken::cancel`, which raises the flag behind the shared handle. Nothing
/// is claimed: the flag is no part of the handle's value. `raised` says that the call was made.
#[verifier::external_body]
fn cancel(token: &CancellationToken) {
    token.cancel()
}

/// Whether `token` can be what `CancellationToken::new` returns.
pub open(crate) spec fn fresh(token: CancellationToken) -> bool {
    call_ensures(new_token, (), token)
}

/// Whether `CancellationToken::cancel` can have returned for the flag of `token`.
pub closed spec fn raised(token: CancellationToken) -> bool {
    call_ensures(cancel, (&token,), ())
}

/// The right to shut the application down, and to wait for its shutdown.
pub struct Shutdown {
    token: CancellationToken,
}

impl Shutdown {
    /// The flag that this handle raises.
    pub closed spec fn flag(&self) -> CancellationToken {
        self.token
    }

    /// A handle that raises the flag of `token`.
    pub fn new(token: &CancellationToken) -> (shutdown: Self)
        ensures
            shutdown.flag() == *token,
    {
        Shutdown { token: clone_token(token) }
    }

    /// Triggers application shutdown.
    pub fn trigger(&self)
        ensures
            raised(self.flag()),
    {
        cancel(&self.token)
    }

    /// The token whose cancellation is the application's shutdown.
    pub fn token(&self) -> (token: &CancellationToken)
        ensures
            *token == self.flag(),
    {
        &self.token
    }
}

impl Clone for Shutdown {
    fn clone(&self) -> (shutdown: Self)
        ensures
            shutdown.flag() == self.flag(),
    {
        Shutdown { token: clone_token(&self.token) }
    }
}

/// `fresh` and `raised` each say that a call was made: of what came of it, and of what it was made
/// with.
proof fn law_relations_are_calls(token: CancellationToken)
    ensures
        fresh(token) <==> call_ensures(new_token, (), token),
        raised(token) <==> call_ensures(cancel, (&token,), ()),
{
}

/// A handle is on the flag that it is made for, shows it, and raises it.
pub proof fn law_handle_is_on_its_flag(
    token: CancellationToken,
    handle: Shutdown,
    shown: &CancellationToken,
)
    requires
        call_ensures(Shutdown::new, (&token,), handle),
        call_ensures(Shutdown::token, (&handle,), shown),
        call_ensures(Shutdown::trigger, (&handle,), ()),
    ensures
        handle.flag() == token,
        *shown == token,
        raised(token),
{
}

} // verus!
