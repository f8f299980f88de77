//! The shared synchronous channel: one buffer per runtime instance, created
//! when script code first asks for it and the same allocation ever after.

use vstd::prelude::*;
use crate::value::Handle;

verus! {

/// The shared channel as the core sees it.
pub struct SharedChannel {
    /// Bytes that a handler left in the channel and nobody has consumed.
    pub pending_size: usize,
    /// The engine's buffer object over the channel, once it exists.
    pub buffer: Option<Handle>,
}

/// What an access to the shared buffer returns and leaves behind, where
/// `created` is the buffer object that the engine would make now.
pub open spec fn shared_access(buffer: Option<Handle>, created: Handle) -> (
    Option<Handle>,
    Handle,
) {
    match buffer {
        Some(existing) => (buffer, existing),
        None => (Some(created), created),
    }
}

/// After the first access every access returns the buffer object of the
/// first, whatever the engine would create.
pub proof fn shared_buffer_is_stable(buffer: Option<Handle>, first: Handle, second: Handle)
    ensures
        shared_access(shared_access(buffer, first).0, second).1 == shared_access(buffer, first).1,
        shared_access(shared_access(buffer, first).0, second).0 == shared_access(buffer, first).0,
{
}

impl SharedChannel {
    /// An empty channel whose buffer object does not exist yet.
    pub fn new() -> (channel: Self)
        ensures
            channel.pending_size == 0,
            channel.buffer is None,
    {
        SharedChannel { pending_size: 0, buffer: None }
    }

    /// Number of bytes waiting in the channel.
    pub fn size(&self) -> (size: usize)
        ensures
            size == self.pending_size,
    {
        self.pending_size
    }
}

/// Returns the buffer object of the shared channel. On the first access
/// `create` makes it, and it is kept; later accesses return the one kept
/// and do not call `create`.
pub fn shared_getter<F: FnOnce() -> Handle>(shared: &mut SharedChannel, create: F) -> (buffer:
    Handle)
    requires
        old(shared).buffer is None ==> call_requires(create, ()),
    ensures
        final(shared).pending_size == old(shared).pending_size,
        final(shared).buffer == Some(buffer),
        old(shared).buffer matches Some(existing) ==> buffer == existing,
        old(shared).buffer is None ==> call_ensures(create, (), buffer),
        (final(shared).buffer, buffer) == shared_access(old(shared).buffer, buffer),
{
    match shared.buffer {
        Some(existing) => existing,
        None => {
            let created = create();
            shared.buffer = Some(created);
            created
        },
    }
}

} // verus!
