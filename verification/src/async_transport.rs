//! The byte pipe under a suspending client.

use vstd::prelude::*;

verus! {

/// A transport whose round trip suspends the caller instead of blocking it.
///
/// The waiting itself belongs to the caller's executor: this library prepares
/// the bytes that go out and reads the bytes that come back, see
/// [`crate::async_client::AsyncSearpcClient`].
pub trait AsyncTransport {

}

} // verus!
