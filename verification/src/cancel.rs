//! Cancellation tokens, as `tokio_util` has them.
//!
//! A token is shared: whoever holds a clone of it, or the token that it is a child of, may cancel
//! it at any time, from any task.  So nothing can be promised of what a look at a token shows;
//! the functions that look at one hand what they saw to a function that takes it as an argument,
//! and their contracts say that it is what they saw, and nothing else.

use tokio_util::sync::CancellationToken;
use vstd::prelude::*;

verus! {

#[verifier::external_type_specification]
#[verifier::external_body]
pub struct ExCancellationToken(tokio_util::sync::CancellationToken);

/// Calls `CancellationToken::new`.  Nothing is claimed of the token.
#[verifier::external_body]
pub(crate) fn new_token() -> CancellationToken {
    CancellationToken::new()
}

/// Calls `CancellationToken::clone`.  Trusted: the result is a handle to the same token.
#[verifier::external_body]
pub(crate) fn same_token(token: &CancellationToken) -> (result: CancellationToken)
    ensures
        result == *token,
{
    token.clone()
}

/// The token that `CancellationToken::child_token` was called on to make the given one.
pub uninterp spec fn parent_token(token: CancellationToken) -> CancellationToken;

/// Calls `CancellationToken::child_token`.  Trusted: the result is made as a child of the given
/// token, and is a token of its own, not a handle to the given one.  That the child is cancelled
/// along with its parent, and not the other way round, is a fact about later times, and left
/// unsaid.
#[verifier::external_body]
pub(crate) fn child_of(token: &CancellationToken) -> (result: CancellationToken)
    ensures
        parent_token(result) == *token,
        result != *token,
{
    token.child_token()
}

/// Calls `CancellationToken::cancel`.
#[verifier::external_body]
pub(crate) fn cancel(token: &CancellationToken) {
    token.cancel()
}

/// Calls `CancellationToken::is_cancelled`.  Nothing is claimed of the answer, which any task may
/// change.
#[verifier::external_body]
pub(crate) fn is_cancelled(token: &CancellationToken) -> bool {
    token.is_cancelled()
}

/// Whether a look at the token returned this answer.
pub closed spec fn seen(token: CancellationToken, cancelled: bool) -> bool {
    call_ensures(is_cancelled, (&token,), cancelled)
}

/// Whether the token was told to cancel, and that call has come back.
pub closed spec fn told(token: CancellationToken) -> bool {
    call_ensures(cancel, (&token,), ())
}

/// Look at a token.
pub(crate) fn look(token: &CancellationToken) -> (cancelled: bool)
    ensures
        seen(*token, cancelled),
{
    is_cancelled(token)
}

/// Tell a token to cancel.
pub(crate) fn tell(token: &CancellationToken)
    ensures
        told(*token),
{
    cancel(token)
}

/// An answer is seen, and a token told, by these calls on the token itself and by nothing else.
pub(crate) proof fn law_seen_and_told_by_calls(token: CancellationToken, cancelled: bool)
    ensures
        seen(token, cancelled) <==> call_ensures(is_cancelled, (&token,), cancelled),
        told(token) <==> call_ensures(cancel, (&token,), ()),
{
}

} // verus!
