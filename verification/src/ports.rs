//! The port allocator: picks the local port the backend will listen on.
//!
//! Availability can only be learned by attempting a passive bind, which is
//! the shell's job; the library contributes the scan order and the verdict.
//! `first_free` decides a whole scan at once, given which ports are taken;
//! `PortScan` walks the same range one candidate at a time, so the shell can
//! bind-probe each candidate as it is proposed.

use vstd::prelude::*;

use crate::state::SupervisorError;

verus! {

/// A half-open scan range of `count` ports starting at `base`.
#[derive(Clone, Copy, Debug, PartialEq, Eq, Structural)]
pub struct PortRange {
    /// First candidate port.
    pub base: u16,
    /// Number of candidates; the range is `[base, base + count)`.
    pub count: u16,
}

impl PortRange {
    /// The whole range must fit below 65536.
    pub open spec fn wf(self) -> bool {
        self.base + self.count <= 0x1_0000
    }

    /// Whether `p` is one of the range's candidates.
    pub open spec fn has(self, p: u16) -> bool {
        self.base <= p < self.base + self.count
    }
}

/// Whether `v` holds `x`; the executable twin of `v@.contains(x)`.
fn holds_port(v: &Vec<u16>, x: u16) -> (b: bool)
    ensures
        b == v@.contains(x),
{
    let mut j: usize = 0;
    while j < v.len()
        invariant
            j <= v@.len(),
            forall|k: int| 0 <= k < j ==> v@[k] != x,
        decreases v@.len() - j,
    {
        if v[j] == x {
            return true;
        }
        j = j + 1;
    }
    false
}

/// Scans the range in order and returns the first port that is not in
/// `occupied`; fails with `NoPortAvailable` exactly when every candidate is
/// occupied. Never returns an occupied port, and never skips a free one.
pub fn first_free(range: PortRange, occupied: &Vec<u16>) -> (r: Result<u16, SupervisorError>)
    requires
        range.wf(),
    ensures
        match r {
            Ok(p) => {
                &&& range.has(p)
                &&& !occupied@.contains(p)
                &&& forall|q: u16| range.has(q) && q < p ==> occupied@.contains(q)
            },
            Err(e) => {
                &&& e == SupervisorError::NoPortAvailable
                &&& forall|q: u16| range.has(q) ==> occupied@.contains(q)
            },
        },
{
    let mut i: u16 = 0;
    while i < range.count
        invariant
            range.wf(),
            i <= range.count,
            forall|q: u16| range.has(q) && q < range.base + i ==> occupied@.contains(q),
        decreases range.count - i,
    {
        let candidate: u16 = range.base + i;
        if !holds_port(occupied, candidate) {
            return Ok(candidate);
        }
        i = i + 1;
    }
    Err(SupervisorError::NoPortAvailable)
}

/// What one step of a [`PortScan`] concluded.
#[derive(Clone, Copy, Debug, PartialEq, Eq, Structural)]
pub enum ScanOutcome {
    /// The current candidate accepted a passive bind: allocate this port.
    Found(u16),
    /// The candidate was taken; ask for the next one.
    Continue,
    /// The whole range was taken: the scan fails with `NoPortAvailable`.
    Exhausted,
}

/// A sequential scan of a [`PortRange`], driven one bind probe at a time.
#[derive(Clone, Copy, Debug, PartialEq, Eq, Structural)]
pub struct PortScan {
    /// The range being scanned.
    pub range: PortRange,
    /// Offset of the next candidate to probe; `count` when exhausted.
    pub next_offset: u16,
}

impl PortScan {
    /// The cursor stays within the range.
    pub open spec fn wf(self) -> bool {
        self.range.wf() && self.next_offset <= self.range.count
    }

    /// A scan positioned on the first candidate of `range`.
    pub fn start(range: PortRange) -> (s: PortScan)
        requires
            range.wf(),
        ensures
            s == (PortScan { range, next_offset: 0u16 }),
            s.wf(),
    {
        PortScan { range, next_offset: 0 }
    }

    /// The candidate the shell should bind-probe next, if any is left.
    pub open spec fn current_spec(self) -> Option<u16> {
        if self.next_offset < self.range.count {
            Some((self.range.base + self.next_offset) as u16)
        } else {
            None
        }
    }

    /// Returns the candidate promised by [`Self::current_spec`].
    pub fn current(&self) -> (r: Option<u16>)
        requires
            self.wf(),
        ensures
            r == self.current_spec(),
    {
        if self.next_offset < self.range.count {
            Some(self.range.base + self.next_offset)
        } else {
            None
        }
    }

    /// Consumes the shell's bind verdict for the current candidate. A
    /// bindable candidate is returned as `Found` and the scan does not move;
    /// a taken one advances the cursor, and moving past the last candidate
    /// reports `Exhausted`. `Found` can only ever carry a port the shell
    /// just reported bindable, so an occupied port is never allocated.
    pub fn advance(&mut self, bindable: bool) -> (r: ScanOutcome)
        requires
            old(self).wf(),
            old(self).next_offset < old(self).range.count,
        ensures
            final(self).wf(),
            bindable ==> {
                &&& *final(self) == *old(self)
                &&& r == ScanOutcome::Found((old(self).range.base + old(self).next_offset) as u16)
            },
            !bindable ==> {
                &&& *final(self) == (PortScan {
                    next_offset: (old(self).next_offset + 1) as u16,
                    ..*old(self)
                })
                &&& (if final(self).next_offset == final(self).range.count {
                    r == ScanOutcome::Exhausted
                } else {
                    r == ScanOutcome::Continue
                })
            },
    {
        if bindable {
            ScanOutcome::Found(self.range.base + self.next_offset)
        } else {
            self.next_offset = self.next_offset + 1;
            if self.next_offset == self.range.count {
                ScanOutcome::Exhausted
            } else {
                ScanOutcome::Continue
            }
        }
    }
}

} // verus!
