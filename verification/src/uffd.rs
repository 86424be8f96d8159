//! Bookkeeping for the out-of-process page-fault handler: which action each
//! userfaultfd event demands, and the per-page statistics it reports.

use vstd::prelude::*;

verus! {

/// The lifecycle of a tracked page range.
#[derive(Clone, Copy, PartialEq, Eq, Structural, Debug)]
pub enum MemPageState {
    /// No fault was served yet.
    Uninitialized,
    /// The page was copied in from the memory file.
    FromFile,
    /// The range was removed; pages there must not be reserved again.
    Removed,
}

/// A userfaultfd event as the handler's loop reads it.
#[derive(Debug)]
pub enum UffdEvent {
    /// A page fault at `addr`.
    Pagefault { addr: u64 },
    /// The range `[start, end)` was removed from the faulting mapping.
    Remove { start: u64, end: u64 },
    /// Any other event kind, which the handler treats as a programmer error.
    Unsupported,
}

/// The action the handler's runtime must take for an event.
#[derive(Debug)]
pub enum UffdReply {
    /// Copy `len` bytes from the memory file into the guest range at `addr`.
    ServePage { addr: u64, len: u64 },
    /// Nothing to copy; the page-state map was updated.
    Updated,
    /// The event kind is not expected here: abort the process.
    Abort,
}

/// A tracked range of the faulting mapping and its page state.
#[derive(Clone, Copy, Debug)]
pub struct PageRange {
    pub start: u64,
    pub end: u64,
    pub state: MemPageState,
}

/// The fault handler's bookkeeping: page size, pages served so far, and the
/// state of every tracked range.
#[derive(Debug)]
pub struct UffdHandlerState {
    pub page_size: u64,
    pub pages_served: u64,
    pub ranges: Vec<PageRange>,
}

/// `ranges` after a removal of `[start, end)`: every tracked range lying
/// wholly inside the removed span is marked removed, the rest are untouched.
pub open spec fn ranges_after_remove(
    ranges: Seq<PageRange>,
    start: u64,
    end: u64,
) -> Seq<PageRange> {
    ranges.map_values(
        |p: PageRange|
            if start <= p.start && p.end <= end {
                PageRange { state: MemPageState::Removed, ..p }
            } else {
                p
            },
    )
}

impl UffdHandlerState {
    /// A fresh handler over pages of `page_size` bytes tracking `ranges`.
    pub fn new(page_size: u64, ranges: Vec<PageRange>) -> (h: UffdHandlerState)
        ensures
            h.page_size == page_size,
            h.pages_served == 0,
            h.ranges == ranges,
    {
        UffdHandlerState { page_size, pages_served: 0, ranges }
    }

    /// Decide one userfaultfd event: a page fault is served from the memory
    /// file at page granularity and counted; a removal marks the covered
    /// ranges; anything else aborts the handler.
    pub fn on_event(&mut self, ev: UffdEvent) -> (r: UffdReply)
        requires
            old(self).pages_served < u64::MAX,
        ensures
            final(self).page_size == old(self).page_size,
            ev matches UffdEvent::Pagefault { addr } ==> ({
                &&& final(self).pages_served == old(self).pages_served + 1
                &&& final(self).ranges == old(self).ranges
                &&& r == (UffdReply::ServePage { addr, len: old(self).page_size })
            }),
            ev matches UffdEvent::Remove { start, end } ==> ({
                &&& final(self).pages_served == old(self).pages_served
                &&& final(self).ranges@ == ranges_after_remove(old(self).ranges@, start, end)
                &&& r is Updated
            }),
            ev is Unsupported ==> *final(self) == *old(self) && r is Abort,
    {
        match ev {
            UffdEvent::Pagefault { addr } => {
                self.pages_served = self.pages_served + 1;
                UffdReply::ServePage { addr, len: self.page_size }
            },
            UffdEvent::Remove { start, end } => {
                let n = self.ranges.len();
                let mut i: usize = 0;
                while i < n
                    invariant
                        i <= n,
                        n == self.ranges@.len(),
                        n == old(self).ranges@.len(),
                        self.page_size == old(self).page_size,
                        self.pages_served == old(self).pages_served,
                        forall|j: int|
                            0 <= j < i ==> #[trigger] self.ranges@[j] == ranges_after_remove(
                                old(self).ranges@,
                                start,
                                end,
                            )[j],
                        forall|j: int|
                            i <= j < n ==> #[trigger] self.ranges@[j] == old(self).ranges@[j],
                    decreases n - i,
                {
                    let ghost r_after = ranges_after_remove(old(self).ranges@, start, end);
                    let p = self.ranges[i];
                    if start <= p.start && p.end <= end {
                        let slot = vstd::std_specs::vec::vec_index_mut(&mut self.ranges, i);
                        *slot = PageRange {
                            start: p.start,
                            end: p.end,
                            state: MemPageState::Removed,
                        };
                    }
                    proof {
                        assert(r_after[i as int] == (if start <= old(self).ranges@[i as int].start
                            && old(self).ranges@[i as int].end <= end {
                            PageRange { state: MemPageState::Removed, ..old(self).ranges@[i as int] }
                        } else {
                            old(self).ranges@[i as int]
                        }));
                    }
                    i = i + 1;
                }
                proof {
                    assert(self.ranges@ =~= ranges_after_remove(old(self).ranges@, start, end));
                }
                UffdReply::Updated
            },
            UffdEvent::Unsupported => UffdReply::Abort,
        }
    }
}

} // verus!
