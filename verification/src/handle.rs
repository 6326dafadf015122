//! Resources that the player hands out and wants back exactly once.

use vstd::prelude::*;

verus! {

/// The resources that a render borrows from the player.
#[derive(Clone, Copy, Debug, PartialEq, Eq, Structural)]
pub enum HandleKind {
    /// The track that is playing; given back by dropping the reference taken on it.
    PlayingTrack,
    /// The current playlist; given back by dropping the reference taken on it.
    PlayingPlaylist,
    /// A compiled format expression; given back by freeing it.
    CompiledScript,
}

/// What the player returned when asked for a resource, and the duty to give it back.
///
/// The raw value is the player's pointer as a number; zero says that the player had nothing
/// to hand out. A handle cannot be cloned: whoever holds it is the one to release it.
#[derive(Debug)]
#[must_use]
pub struct ScopedHandle {
    kind: HandleKind,
    raw: usize,
}

impl ScopedHandle {
    /// The kind of resource.
    pub closed spec fn kind(&self) -> HandleKind {
        self.kind
    }

    /// The player's value, or zero where nothing is held.
    pub closed spec fn raw(&self) -> usize {
        self.raw
    }

    /// Something is held and is still to be released.
    pub open spec fn is_present(&self) -> bool {
        self.raw() != 0
    }

    /// Takes charge of what the player's acquisition function returned.
    pub fn acquire(kind: HandleKind, raw: usize) -> (handle: ScopedHandle)
        ensures
            handle.kind() == kind,
            handle.raw() == raw,
    {
        ScopedHandle { kind, raw }
    }

    /// A handle that holds nothing.
    pub fn absent(kind: HandleKind) -> (handle: ScopedHandle)
        ensures
            handle.kind() == kind,
            !handle.is_present(),
    {
        ScopedHandle { kind, raw: 0 }
    }

    /// The kind of resource.
    pub fn get_kind(&self) -> (kind: HandleKind)
        ensures
            kind == self.kind(),
    {
        self.kind
    }

    /// The player's value, or zero where nothing is held.
    pub fn get_raw(&self) -> (raw: usize)
        ensures
            raw == self.raw(),
    {
        self.raw
    }

    /// Whether something is held.
    pub fn present(&self) -> (present: bool)
        ensures
            present == self.is_present(),
    {
        self.raw != 0
    }

    /// Ends the hold. Returns the value that is now due to the player's release function,
    /// or `None` where nothing was held. Afterwards the handle holds nothing, so a second
    /// call returns `None`.
    pub fn release(&mut self) -> (due: Option<usize>)
        ensures
            due == (if old(self).is_present() {
                Some(old(self).raw())
            } else {
                None
            }),
            final(self).kind() == old(self).kind(),
            !final(self).is_present(),
    {
        if self.raw != 0 {
            let raw = self.raw;
            self.raw = 0;
            Some(raw)
        } else {
            None
        }
    }
}

} // verus!
