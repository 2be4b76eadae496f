//! The opened-file relay: a single-slot, read-once store for the file
//! path delivered by an OS "open with" launch signal.

use vstd::prelude::*;

verus! {

/// What a read of the slot does, seen on the slot's view: the read
/// returns the stored value and leaves the slot empty.
pub open spec fn take_transition(
    pre: Option<Seq<char>>,
    r: Option<Seq<char>>,
    post: Option<Seq<char>>,
) -> bool {
    r == pre && post is None
}

/// Single-value store for the path of the file the process was asked to
/// open. Created empty; set by each open-file signal (last writer wins);
/// cleared by the first read.
pub struct OpenedFileSlot {
    path: Option<String>,
}

impl View for OpenedFileSlot {
    type V = Option<Seq<char>>;

    closed spec fn view(&self) -> Option<Seq<char>> {
        match self.path {
            Some(ref p) => Some(p@),
            None => None,
        }
    }
}

impl OpenedFileSlot {
    /// The slot starts empty: nothing was opened yet.
    pub fn new() -> (s: OpenedFileSlot)
        ensures
            s@ is None,
    {
        OpenedFileSlot { path: None }
    }

    /// Record a freshly opened file, overwriting any unread value.
    pub fn store(&mut self, path: String)
        ensures
            final(self)@ == Some(path@),
    {
        self.path = Some(path);
    }

    /// Read-once: return the stored path, leaving the slot empty.
    pub fn take(&mut self) -> (r: Option<String>)
        ensures
            take_transition(old(self)@, r.deep_view(), final(self)@),
    {
        self.path.take()
    }
}

/// Read-once is idempotent: of two reads with no store in between, the
/// first returns whatever was held and the second always returns
/// nothing, leaving the slot empty.
pub proof fn lemma_read_once_idempotent(
    v0: Option<Seq<char>>,
    r1: Option<Seq<char>>,
    v1: Option<Seq<char>>,
    r2: Option<Seq<char>>,
    v2: Option<Seq<char>>,
)
    requires
        take_transition(v0, r1, v1),
        take_transition(v1, r2, v2),
    ensures
        r1 == v0,
        r2 is None,
        v2 is None,
{
}

} // verus!
