use vstd::prelude::*;

verus! {

/// The identity of an event listener as the event-dispatch runtime stores
/// it: the event name, the owning scope's index, and the per-scope
/// listener id. The `(scope, id)` pair is all the runtime needs to find
/// and invoke the callback.
pub struct ListenerHandle {
    /// The type of event listened for, such as `"click"`.
    pub event: String,
    /// Index of the scope that owns this listener.
    pub scope: usize,
    /// Per-scope listener id.
    pub id: usize,
}

/// An event listener attached to an element.
///
/// The callback closure itself is owned by the event-dispatch runtime,
/// which looks a listener up by its `(scope, id)` pair; `callback` is the
/// erased handle under which the runtime registered that closure. This
/// layer records the handle and never invokes it.
pub struct Listener {
    /// The type of event to listen for, such as `"click"`.
    pub event: String,
    /// Index of the scope that owns this listener.
    pub scope: usize,
    /// Per-scope listener id.
    pub id: usize,
    /// Erased handle to the callback registered with the dispatch runtime.
    pub callback: u64,
}

} // verus!
