//! The process side of the grant mechanism: each process carries a table of
//! grant-pointer slots (one per registered grant identity) and a bump
//! allocator over its own memory budget. The grant core consumes this
//! interface; it never owns process memory itself.

use vstd::prelude::*;

verus! {

/// Stable identity of one process: the process-table slot it occupies plus a
/// generation number that tells it apart from earlier occupants of the same
/// slot. Holding an `AppId` does not keep the process alive; a lookup against
/// a departed process simply fails.
#[derive(Clone, Copy, PartialEq, Eq, Structural, Debug)]
pub struct AppId {
    /// Index of the process-table slot the process occupies.
    pub idx: usize,
    /// Generation number, unique across the kernel's lifetime.
    pub uid: usize,
}

/// Everything that can go wrong when a driver asks for a grant region.
/// All four are reported to the caller; none is recovered internally.
#[derive(Clone, Copy, PartialEq, Eq, Structural, Debug)]
pub enum Error {
    /// The identity no longer names a live process.
    NoSuchApp,
    /// The process exists but cannot service grant requests right now.
    InactiveApp,
    /// The process's allocator could not place the region.
    OutOfMemory,
    /// The region is currently borrowed by another access path.
    AlreadyInUse,
}

/// One grant-pointer slot. The tri-state value is the whole borrow
/// discipline: `Holding` publishes the region's address, `Borrowed` is the
/// reentrancy sentinel written while some access path holds the region, and
/// `Empty` means the region was never allocated.
#[derive(Clone, Copy, PartialEq, Eq, Structural, Debug)]
pub enum GrantPtr {
    /// No region has been allocated for this grant yet.
    Empty,
    /// A region exists at this address and nobody is using it.
    Holding(usize),
    /// The region is checked out; any further attempt to reach it must fail.
    Borrowed,
}

/// Mathematical image of a [`Process`].
#[verifier::ext_equal]
pub ghost struct ProcessV {
    pub appid: AppId,
    pub active: bool,
    /// Next free offset of the bump allocator.
    pub brk: usize,
    /// End of the memory budget; the allocator never goes past it.
    pub limit: usize,
    /// One tri-state slot per registered grant identity.
    pub ptrs: Seq<GrantPtr>,
}

/// Padding the bump allocator inserts so that the next placement starts on a
/// multiple of `align`.
pub open spec fn align_pad(brk: int, align: int) -> int
    recommends
        1 <= align,
{
    (align - brk % align) % align
}

/// Whether a process has room for a region of `size` bytes aligned to
/// `align`. This is exactly the condition under which [`Process::allocate`]
/// succeeds.
pub open spec fn alloc_fits(p: ProcessV, size: int, align: int) -> bool
    recommends
        1 <= align,
{
    p.brk + align_pad(p.brk as int, align) + size <= p.limit
}

/// A process as the grant core sees it: an identity, an activity flag, a
/// bump allocator over the process's own memory, and the grant-pointer
/// table. Register state, scheduling state and the rest of the control block
/// live with the process manager, outside this crate.
pub struct Process {
    appid: AppId,
    active: bool,
    brk: usize,
    limit: usize,
    grant_ptrs: Vec<GrantPtr>,
}

impl View for Process {
    type V = ProcessV;

    closed spec fn view(&self) -> ProcessV {
        ProcessV {
            appid: self.appid,
            active: self.active,
            brk: self.brk,
            limit: self.limit,
            ptrs: self.grant_ptrs@,
        }
    }
}

impl Process {
    /// A fresh process: active, nothing allocated, every grant-pointer slot
    /// empty.
    pub(crate) fn new(appid: AppId, num_grants: usize, limit: usize) -> (p: Process)
        ensures
            p@.appid == appid,
            p@.active,
            p@.brk == 0,
            p@.limit == limit,
            p@.ptrs.len() == num_grants,
            forall|i: int| 0 <= i < num_grants ==> p@.ptrs[i] == GrantPtr::Empty,
    {
        let mut ptrs: Vec<GrantPtr> = Vec::new();
        let mut i: usize = 0;
        while i < num_grants
            invariant
                i <= num_grants,
                ptrs@.len() == i,
                forall|j: int| 0 <= j < i ==> ptrs@[j] == GrantPtr::Empty,
            decreases num_grants - i,
        {
            ptrs.push(GrantPtr::Empty);
            i = i + 1;
        }
        Process { appid, active: true, brk: 0, limit, grant_ptrs: ptrs }
    }

    /// The stable handle naming this process.
    pub fn identity(&self) -> (r: AppId)
        ensures
            r == self@.appid,
    {
        self.appid
    }

    /// Whether the process can service grant requests right now.
    pub fn is_active(&self) -> (r: bool)
        ensures
            r == self@.active,
    {
        self.active
    }

    pub(crate) fn set_active(&mut self, active: bool)
        ensures
            final(self)@ == (ProcessV { active, ..old(self)@ }),
    {
        self.active = active;
    }

    /// Reads one grant-pointer slot. `None` does not mean the slot is empty;
    /// it means the process cannot service grant requests at all right now.
    pub fn get_grant_pointer(&self, index: usize) -> (r: Option<GrantPtr>)
        requires
            index < self@.ptrs.len(),
        ensures
            r == (if self@.active {
                Some(self@.ptrs[index as int])
            } else {
                None::<GrantPtr>
            }),
    {
        if self.active {
            Some(self.grant_ptrs[index])
        } else {
            None
        }
    }

    /// Overwrites one grant-pointer slot, whatever it held. The grant core
    /// uses this both to publish a freshly allocated region and to write or
    /// clear the borrow sentinel.
    pub fn set_grant_pointer(&mut self, index: usize, ptr: GrantPtr)
        requires
            index < old(self)@.ptrs.len(),
        ensures
            final(self)@ == (ProcessV {
                ptrs: old(self)@.ptrs.update(index as int, ptr),
                ..old(self)@
            }),
    {
        self.grant_ptrs[index] = ptr;
    }

    /// Bump-allocates `size` bytes aligned to `align` inside the process's
    /// memory budget. Succeeds exactly when the padded request still fits
    /// below the limit; the budget is never given back.
    pub fn allocate(&mut self, size: usize, align: usize) -> (r: Option<usize>)
        requires
            1 <= align,
            old(self)@.brk <= old(self)@.limit,
        ensures
            alloc_fits(old(self)@, size as int, align as int) ==> {
                let base = old(self)@.brk + align_pad(old(self)@.brk as int, align as int);
                &&& r == Some(base as usize)
                &&& final(self)@ == (ProcessV { brk: (base + size) as usize, ..old(self)@ })
            },
            !alloc_fits(old(self)@, size as int, align as int) ==> {
                &&& r is None
                &&& *final(self) == *old(self)
            },
            final(self)@.brk <= final(self)@.limit,
    {
        let rem: usize = self.brk % align;
        let pad: usize = if rem == 0 {
            0
        } else {
            align - rem
        };
        proof {
            let b = self.brk as int;
            let a = align as int;
            assert(0 <= b % a < a) by (nonlinear_arith)
                requires
                    a >= 1,
                    b >= 0,
            ;
            if rem == 0 {
                assert(a % a == 0) by (nonlinear_arith)
                    requires
                        a >= 1,
                ;
            } else {
                assert((a - b % a) % a == a - b % a) by (nonlinear_arith)
                    requires
                        0 < a - b % a < a,
                ;
            }
            assert(pad == align_pad(b, a));
        }
        if pad <= self.limit - self.brk && size <= self.limit - self.brk - pad {
            let base: usize = self.brk + pad;
            self.brk = base + size;
            Some(base)
        } else {
            None
        }
    }
}

} // verus!
