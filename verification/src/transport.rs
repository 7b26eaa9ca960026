//! The byte pipe under a client.

use crate::error::SearpcError;
use vstd::prelude::*;

verus! {

/// One round trip over an open connection: the request's bytes go out, the
/// reply's bytes come back. Nothing is promised of what a transport returns.
pub trait Transport {
    fn send(&mut self, request: &[u8]) -> (reply: Result<Vec<u8>, SearpcError>);
}

/// `FnMut::call_mut` on the caller's own function: the reply is what that
/// function returns for the request. Where the request meets what the function
/// requires, the reply is therefore one that the function's own contract
/// allows; of a request that does not, nothing is claimed.
#[verifier::external_body]
fn call_function<F>(function: &mut F, request: &[u8]) -> (reply: Result<
    Vec<u8>,
    SearpcError,
>) where F: FnMut(&[u8]) -> Result<Vec<u8>, SearpcError>
    ensures
        call_requires(*old(function), (request,)) ==> call_ensures(
            *old(function),
            (request,),
            reply,
        ),
{
    function(request)
}

/// A function from request bytes to reply bytes is a transport: a round trip
/// is one call of the function with the request, and its reply is what the
/// function returns.
impl<F> Transport for F where F: FnMut(&[u8]) -> Result<Vec<u8>, SearpcError> {
    fn send(&mut self, request: &[u8]) -> (reply: Result<Vec<u8>, SearpcError>)
        ensures
            call_requires(*old(self), (request,)) ==> call_ensures(
                *old(self),
                (request,),
                reply,
            ),
    {
        call_function(self, request)
    }
}

} // verus!
