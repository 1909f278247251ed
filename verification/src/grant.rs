//! The grant core: lazy placement of one typed state value per process, a
//! runtime borrow discipline over the tri-state pointer slots, and a walk
//! over every process that currently holds a region.
//!
//! A `Grant<T>` owns the typed image of every region that exists for its
//! grant index, standing for the bytes placed inside each process's memory.
//! The process's own pointer slot decides whether that image is reachable:
//! `Holding` publishes it, `Borrowed` locks it while a guard is out, and
//! `Empty` means first use has not happened yet. Taking a guard checks the
//! value out and writes the sentinel; giving the guard back commits the
//! value and republishes the address. A second access between those two
//! points fails with [`Error::AlreadyInUse`] instead of aliasing the region.

use vstd::prelude::*;

use crate::kernel::{Kernel, KernelV};
use crate::process::{align_pad, alloc_fits, AppId, Error, GrantPtr, ProcessV};

verus! {

/// Mathematical image of a [`Grant`].
#[verifier::ext_equal]
pub ghost struct GrantV<T> {
    /// The grant index this handle owns in every process's pointer table.
    pub num: usize,
    /// Size of the state type, as handed to the process allocator.
    pub size: usize,
    /// Alignment of the state type.
    pub align: usize,
    /// The typed image of each process slot's region. `None` where no
    /// region is reachable: never allocated, or checked out to a guard.
    pub regions: Seq<Option<T>>,
}

/// Mathematical image of a guard ([`AppliedGrant`] or [`Borrowed`]): which
/// process it belongs to, the region's stable address, and the checked-out
/// state value.
#[verifier::ext_equal]
pub ghost struct GuardV<T> {
    pub appid: AppId,
    pub addr: usize,
    pub data: T,
}

impl<T> GrantV<T> {
    /// The grant handle fits the registry: its index is registered, it
    /// tracks one region image per process slot, its alignment is a real
    /// one, and every published (`Holding`) slot has its image present.
    pub open spec fn wf_for(self, k: KernelV) -> bool {
        &&& self.num < k.num_grants
        &&& self.regions.len() == k.slots.len()
        &&& 1 <= self.align
        &&& forall|i: int|
            0 <= i < k.slots.len() && k.slots[i] is Some
                && (#[trigger] k.slots[i])->0@.ptrs[self.num as int] is Holding
                ==> self.regions[i] is Some
    }
}

/// Why an [`enter`](Grant::enter) fails, or `None` when it is owed success.
/// The outcome is a function of the pre-state alone, so the error taxonomy
/// is decided before any step of the protocol runs.
pub open spec fn enter_outcome<T>(g: GrantV<T>, k: KernelV, app: AppId) -> Option<Error> {
    if !k.live(app) {
        Some(Error::NoSuchApp)
    } else if !k.proc(app).active {
        Some(Error::InactiveApp)
    } else {
        match k.proc(app).ptrs[g.num as int] {
            GrantPtr::Borrowed => Some(Error::AlreadyInUse),
            GrantPtr::Holding(_) => None,
            GrantPtr::Empty => {
                if alloc_fits(k.proc(app), g.size as int, g.align as int) {
                    None
                } else {
                    Some(Error::OutOfMemory)
                }
            },
        }
    }
}

/// The one successful transition of the locate-or-allocate protocol:
/// between the pre-state `(g0, k0)` and the post-state `(g1, k1)`, exactly
/// the named process's pointer slot and region image change; the slot now
/// carries the borrow sentinel, the region is checked out into the guard
/// `b`, and on first use the address is the process allocator's placement.
pub open spec fn enter_ok_post<T>(
    g0: GrantV<T>,
    k0: KernelV,
    g1: GrantV<T>,
    k1: KernelV,
    app: AppId,
    b: GuardV<T>,
) -> bool {
    let i = app.idx as int;
    let p0 = k0.proc(app);
    &&& k0.live(app)
    &&& p0.active
    &&& b.appid == app
    &&& g1.num == g0.num
    &&& g1.size == g0.size
    &&& g1.align == g0.align
    &&& g1.regions == g0.regions.update(i, None::<T>)
    &&& k1.num_grants == k0.num_grants
    &&& k1.next_uid == k0.next_uid
    &&& k1.slots.len() == k0.slots.len()
    &&& forall|j: int| 0 <= j < k0.slots.len() && j != i ==> k1.slots[j] == k0.slots[j]
    &&& k1.slots[i] is Some
    &&& ({
        let p1 = k1.slots[i]->0@;
        &&& p1.appid == p0.appid
        &&& p1.active == p0.active
        &&& p1.limit == p0.limit
        &&& p1.ptrs == p0.ptrs.update(g0.num as int, GrantPtr::Borrowed)
        &&& match p0.ptrs[g0.num as int] {
            GrantPtr::Holding(a) => {
                &&& b.addr == a
                &&& g0.regions[i] is Some
                &&& b.data == g0.regions[i]->0
                &&& p1.brk == p0.brk
            },
            GrantPtr::Empty => {
                &&& b.addr == p0.brk + align_pad(p0.brk as int, g0.align as int)
                &&& p1.brk == b.addr + g0.size
            },
            GrantPtr::Borrowed => false,
        }
    })
}

/// What giving a guard back does: if the process is still resident, its
/// pointer slot returns to `Holding` at the guard's (stable) address and
/// the possibly updated value is committed; if the process departed while
/// the guard was out, nothing changes and the value is discarded with it.
pub open spec fn exit_commit_post<T>(
    g0: GrantV<T>,
    k0: KernelV,
    g1: GrantV<T>,
    k1: KernelV,
    b: GuardV<T>,
) -> bool {
    let i = b.appid.idx as int;
    if k0.live(b.appid) {
        let p0 = k0.proc(b.appid);
        &&& g1.num == g0.num
        &&& g1.size == g0.size
        &&& g1.align == g0.align
        &&& g1.regions == g0.regions.update(i, Some(b.data))
        &&& k1.num_grants == k0.num_grants
        &&& k1.next_uid == k0.next_uid
        &&& k1.slots.len() == k0.slots.len()
        &&& forall|j: int| 0 <= j < k0.slots.len() && j != i ==> k1.slots[j] == k0.slots[j]
        &&& k1.slots[i] is Some
        &&& k1.slots[i]->0@ == (ProcessV {
            ptrs: p0.ptrs.update(g0.num as int, GrantPtr::Holding(b.addr)),
            ..p0
        })
    } else {
        &&& g1 == g0
        &&& k1 == k0
    }
}

/// Whether a walk over the process table for grant index `gnum` visits
/// slot `i`: a process is resident there, can service grant requests, and
/// has its region published (allocated and not currently borrowed).
pub open spec fn visited(k: KernelV, gnum: int, i: int) -> bool {
    &&& 0 <= i < k.slots.len()
    &&& k.slots[i] is Some
    &&& k.slots[i]->0@.active
    &&& k.slots[i]->0@.ptrs[gnum] is Holding
}

/// The first slot at or after `from` that a walk for grant index `gnum`
/// visits, or `None` when no such slot is left.
pub open spec fn next_visited(k: KernelV, gnum: int, from: int) -> Option<int>
    decreases k.slots.len() - from,
{
    if from < 0 || from >= k.slots.len() {
        None
    } else if visited(k, gnum, from) {
        Some(from)
    } else {
        next_visited(k, gnum, from + 1)
    }
}

/// Both registries hold the same table of process states: the same slots
/// are occupied, by processes observably equal in every respect the grant
/// mechanism can see.
pub open spec fn same_table(k0: KernelV, k1: KernelV) -> bool {
    &&& k1.slots.len() == k0.slots.len()
    &&& k1.num_grants == k0.num_grants
    &&& k1.next_uid == k0.next_uid
    &&& forall|i: int|
        0 <= i < k0.slots.len() ==> {
            &&& ((#[trigger] k1.slots[i]) is Some <==> k0.slots[i] is Some)
            &&& (k1.slots[i] is Some ==> k1.slots[i]->0@ == k0.slots[i]->0@)
        }
}

/// A driver's handle on one piece of per-process state of type `T`. The
/// handle is the only owner of its grant index; every process's region for
/// that index is reached through it.
pub struct Grant<T: Default> {
    grant_num: usize,
    size: usize,
    align: usize,
    regions: Vec<Option<T>>,
}

/// A located, exclusively held grant region, produced by the
/// locate-or-allocate protocol. Turning it into the [`Borrowed`] guard that
/// driver code works with is [`AppliedGrant::enter`].
pub struct AppliedGrant<T> {
    appid: AppId,
    addr: usize,
    data: T,
}

/// The borrow guard: exclusive access to one process's grant region. While
/// a guard is out, the process's pointer slot reads as borrowed, and every
/// further access to the same (process, grant) pair fails rather than
/// alias this value. Give it back with [`Grant::exit`] to publish the
/// region again.
#[derive(Debug)]
pub struct Borrowed<T> {
    data: T,
    appid: AppId,
    addr: usize,
}

impl<T: Default> View for Grant<T> {
    type V = GrantV<T>;

    closed spec fn view(&self) -> GrantV<T> {
        GrantV {
            num: self.grant_num,
            size: self.size,
            align: self.align,
            regions: self.regions@,
        }
    }
}

impl<T> View for AppliedGrant<T> {
    type V = GuardV<T>;

    closed spec fn view(&self) -> GuardV<T> {
        GuardV { appid: self.appid, addr: self.addr, data: self.data }
    }
}

impl<T> View for Borrowed<T> {
    type V = GuardV<T>;

    closed spec fn view(&self) -> GuardV<T> {
        GuardV { appid: self.appid, addr: self.addr, data: self.data }
    }
}

impl<T> Borrowed<T> {
    fn new(data: T, appid: AppId, addr: usize) -> (b: Borrowed<T>)
        ensures
            b@ == (GuardV { appid, addr, data }),
    {
        Borrowed { data, appid, addr }
    }

    /// The identity of the process this region belongs to.
    pub fn appid(&self) -> (r: AppId)
        ensures
            r == self@.appid,
    {
        self.appid
    }

    /// The region's address inside the owning process's memory. Stable for
    /// the process's whole lifetime once the first access allocated it.
    pub fn region_address(&self) -> (r: usize)
        ensures
            r == self@.addr,
    {
        self.addr
    }

    /// Reads the borrowed state value.
    pub fn get(&self) -> (r: &T)
        ensures
            *r == self@.data,
    {
        &self.data
    }

    /// Replaces the borrowed state value; the region's address and owner
    /// are untouched.
    pub fn set(&mut self, v: T)
        ensures
            final(self)@ == (GuardV { data: v, ..old(self)@ }),
    {
        self.data = v;
    }

    /// Exclusive access to the borrowed state value, for updates in
    /// place; the region's address and owner are untouched.
    pub fn data_mut(&mut self) -> (r: &mut T)
        ensures
            *r == old(self)@.data,
            final(self)@ == (GuardV { data: *final(r), ..old(self)@ }),
    {
        &mut self.data
    }
}

impl<T: Default> AppliedGrant<T> {
    /// The locate-or-allocate protocol for one process. On first use it
    /// asks the process's own allocator for a block sized and aligned for
    /// `T` and default-constructs the state; afterwards it reuses the
    /// recorded placement. Success checks the region out and writes the
    /// borrow sentinel into the process's pointer slot.
    fn get_or_allocate(grant: &mut Grant<T>, kernel: &mut Kernel, appid: AppId) -> (r: Result<
        AppliedGrant<T>,
        Error,
    >)
        requires
            old(grant)@.wf_for(old(kernel)@),
            old(kernel)@.wf(),
        ensures
            final(grant)@.wf_for(final(kernel)@),
            final(kernel)@.wf(),
            match r {
                Ok(ag) => {
                    &&& enter_outcome(old(grant)@, old(kernel)@, appid) is None
                    &&& enter_ok_post(
                        old(grant)@,
                        old(kernel)@,
                        final(grant)@,
                        final(kernel)@,
                        appid,
                        ag@,
                    )
                    &&& old(kernel)@.proc(appid).ptrs[old(grant)@.num as int] is Empty
                        ==> call_ensures(T::default, (), ag@.data)
                },
                Err(e) => {
                    &&& enter_outcome(old(grant)@, old(kernel)@, appid) == Some(e)
                    &&& final(grant)@ == old(grant)@
                    &&& final(kernel)@ == old(kernel)@
                },
            },
    {
        if !kernel.is_live(appid) {
            return Err(Error::NoSuchApp);
        }
        let slot = appid.idx;
        let p = kernel.process_mut(slot);
        let ptr_opt = p.get_grant_pointer(grant.grant_num);
        match ptr_opt {
            None => {
                proof {
                    assert(kernel@.slots =~= old(kernel)@.slots);
                    assert(kernel@ =~= old(kernel)@);
                }
                Err(Error::InactiveApp)
            },
            Some(GrantPtr::Borrowed) => {
                proof {
                    assert(kernel@.slots =~= old(kernel)@.slots);
                    assert(kernel@ =~= old(kernel)@);
                }
                Err(Error::AlreadyInUse)
            },
            Some(GrantPtr::Holding(addr)) => {
                p.set_grant_pointer(grant.grant_num, GrantPtr::Borrowed);
                let data = grant.take_region(slot);
                Ok(AppliedGrant { appid, addr, data })
            },
            Some(GrantPtr::Empty) => {
                match p.allocate(grant.size, grant.align) {
                    None => {
                        proof {
                            assert(kernel@.slots =~= old(kernel)@.slots);
                            assert(kernel@ =~= old(kernel)@);
                        }
                        Err(Error::OutOfMemory)
                    },
                    Some(addr) => {
                        p.set_grant_pointer(grant.grant_num, GrantPtr::Borrowed);
                        grant.clear_region(slot);
                        let data = T::default();
                        Ok(AppliedGrant { appid, addr, data })
                    },
                }
            },
        }
    }

    /// The non-allocating lookup behind the grant walk: checks the region
    /// of the process in `slot` out only if one is resident, active, and
    /// has the region published. A process with no allocation contributes
    /// nothing, and no allocation ever happens here.
    fn get_if_allocated(grant: &mut Grant<T>, kernel: &mut Kernel, slot: usize) -> (r: Option<
        AppliedGrant<T>,
    >)
        requires
            old(grant)@.wf_for(old(kernel)@),
            old(kernel)@.wf(),
            slot < old(kernel)@.slots.len(),
        ensures
            final(grant)@.wf_for(final(kernel)@),
            final(kernel)@.wf(),
            r is Some <==> visited(old(kernel)@, old(grant)@.num as int, slot as int),
            match r {
                Some(ag) => {
                    let p0 = old(kernel)@.proc_at(slot as int);
                    &&& ag@.appid == p0.appid
                    &&& p0.ptrs[old(grant)@.num as int] == GrantPtr::Holding(ag@.addr)
                    &&& old(grant)@.regions[slot as int] is Some
                    &&& ag@.data == old(grant)@.regions[slot as int]->0
                    &&& enter_ok_post(
                        old(grant)@,
                        old(kernel)@,
                        final(grant)@,
                        final(kernel)@,
                        p0.appid,
                        ag@,
                    )
                },
                None => {
                    &&& final(grant)@ == old(grant)@
                    &&& *final(kernel) == *old(kernel)
                },
            },
    {
        let found: Option<(AppId, usize)> = match kernel.process_at(slot) {
            Some(p) => {
                match p.get_grant_pointer(grant.grant_num) {
                    Some(GrantPtr::Holding(addr)) => Some((p.identity(), addr)),
                    _ => None,
                }
            },
            None => None,
        };
        match found {
            Some((appid, addr)) => {
                let p = kernel.process_mut(slot);
                p.set_grant_pointer(grant.grant_num, GrantPtr::Borrowed);
                let data = grant.take_region(slot);
                Some(AppliedGrant { appid, addr, data })
            },
            None => None,
        }
    }

    /// Hands the located region to driver code as a borrow guard.
    pub fn enter(self) -> (b: Borrowed<T>)
        ensures
            b@ == self@,
    {
        let AppliedGrant { appid, addr, data } = self;
        Borrowed::new(data, appid, addr)
    }
}

impl<T: Default> Grant<T> {
    /// A handle for grant index `grant_index` of the given registry. The
    /// index must be registered and not yet claimed by another handle: no
    /// resident process may already have a region published for it.
    pub fn new(kernel: &Kernel, grant_index: usize) -> (g: Grant<T>)
        requires
            grant_index < kernel@.num_grants,
            forall|i: int|
                0 <= i < kernel@.slots.len() && kernel@.slots[i] is Some
                    ==> (#[trigger] kernel@.slots[i])->0@.ptrs[grant_index as int] is Empty,
        ensures
            g@.num == grant_index,
            g@.size == vstd::layout::size_of::<T>(),
            g@.align == vstd::layout::align_of::<T>(),
            g@.regions.len() == kernel@.slots.len(),
            forall|i: int| 0 <= i < g@.regions.len() ==> g@.regions[i] is None,
            g@.wf_for(kernel@),
    {
        vstd::layout::layout_for_type_is_valid::<T>();
        let size = core::mem::size_of::<T>();
        let align = core::mem::align_of::<T>();
        let n = kernel.slot_count();
        let mut regions: Vec<Option<T>> = Vec::new();
        let mut i: usize = 0;
        while i < n
            invariant
                i <= n,
                regions@.len() == i,
                forall|j: int| 0 <= j < i ==> regions@[j] is None,
            decreases n - i,
        {
            regions.push(None);
            i = i + 1;
        }
        Grant { grant_num: grant_index, size, align, regions }
    }

    /// Checks the region image for `slot` out.
    fn take_region(&mut self, slot: usize) -> (t: T)
        requires
            slot < old(self)@.regions.len(),
            old(self)@.regions[slot as int] is Some,
        ensures
            t == old(self)@.regions[slot as int]->0,
            final(self)@ == (GrantV {
                regions: old(self)@.regions.update(slot as int, None::<T>),
                ..old(self)@
            }),
    {
        let r = &mut self.regions[slot];
        let taken = r.take();
        match taken {
            Some(v) => v,
            None => vstd::pervasive::unreached(),
        }
    }

    /// Drops whatever image `slot` held: a new region is about to be
    /// placed there, and any leftover belongs to a departed predecessor
    /// process whose memory is gone.
    fn clear_region(&mut self, slot: usize)
        requires
            slot < old(self)@.regions.len(),
        ensures
            final(self)@ == (GrantV {
                regions: old(self)@.regions.update(slot as int, None::<T>),
                ..old(self)@
            }),
    {
        self.regions[slot] = None;
    }

    /// Locates or lazily allocates the grant region of the process named
    /// by `appid` and hands it out as a borrow guard. Fails with
    /// [`Error::NoSuchApp`] for a departed identity, [`Error::InactiveApp`]
    /// for a process that cannot service grants right now,
    /// [`Error::OutOfMemory`] when the process's allocator has no room, and
    /// [`Error::AlreadyInUse`] while the region is checked out elsewhere —
    /// including by an ancestor frame of the caller itself. On failure
    /// nothing changes; in particular a failed first use leaves the slot
    /// unallocated.
    pub fn enter(&mut self, kernel: &mut Kernel, appid: AppId) -> (r: Result<Borrowed<T>, Error>)
        requires
            old(self)@.wf_for(old(kernel)@),
            old(kernel)@.wf(),
        ensures
            final(self)@.wf_for(final(kernel)@),
            final(kernel)@.wf(),
            match r {
                Ok(b) => {
                    &&& enter_outcome(old(self)@, old(kernel)@, appid) is None
                    &&& enter_ok_post(
                        old(self)@,
                        old(kernel)@,
                        final(self)@,
                        final(kernel)@,
                        appid,
                        b@,
                    )
                    &&& old(kernel)@.proc(appid).ptrs[old(self)@.num as int] is Empty
                        ==> call_ensures(T::default, (), b@.data)
                },
                Err(e) => {
                    &&& enter_outcome(old(self)@, old(kernel)@, appid) == Some(e)
                    &&& final(self)@ == old(self)@
                    &&& final(kernel)@ == old(kernel)@
                },
            },
    {
        match AppliedGrant::get_or_allocate(self, kernel, appid) {
            Ok(ag) => Ok(ag.enter()),
            Err(e) => Err(e),
        }
    }

    /// Runs `fun` once against every process that currently holds a
    /// published region for this grant: its identity and checked-out state
    /// go in, the state to commit comes back. Processes with no allocation
    /// and processes whose region is borrowed elsewhere are silently
    /// skipped, as the walk's contract says; no allocation happens. Each
    /// visited process is visited exactly once, in process-table order,
    /// and the table of pointer slots reads afterwards as it did before.
    pub fn each<F: Fn(AppId, T) -> T>(&mut self, kernel: &mut Kernel, fun: F)
        requires
            old(self)@.wf_for(old(kernel)@),
            old(kernel)@.wf(),
            forall|a: AppId, t: T| call_requires(fun, (a, t)),
        ensures
            final(self)@.wf_for(final(kernel)@),
            final(kernel)@.wf(),
            same_table(old(kernel)@, final(kernel)@),
            final(self)@.num == old(self)@.num,
            final(self)@.size == old(self)@.size,
            final(self)@.align == old(self)@.align,
            final(self)@.regions.len() == old(self)@.regions.len(),
            forall|i: int|
                0 <= i < old(self)@.regions.len() ==> {
                    if visited(old(kernel)@, old(self)@.num as int, i) {
                        &&& (#[trigger] final(self)@.regions[i]) is Some
                        &&& call_ensures(
                            fun,
                            (old(kernel)@.proc_at(i).appid, old(self)@.regions[i]->0),
                            final(self)@.regions[i]->0,
                        )
                    } else {
                        final(self)@.regions[i] == old(self)@.regions[i]
                    }
                },
    {
        let n = kernel.slot_count();
        let mut i: usize = 0;
        while i < n
            invariant
                i <= n,
                n == kernel@.slots.len(),
                kernel@.wf(),
                self@.wf_for(kernel@),
                same_table(old(kernel)@, kernel@),
                self@.num == old(self)@.num,
                self@.size == old(self)@.size,
                self@.align == old(self)@.align,
                self@.regions.len() == old(self)@.regions.len(),
                forall|a: AppId, t: T| call_requires(fun, (a, t)),
                forall|j: int|
                    0 <= j < i ==> {
                        if visited(old(kernel)@, old(self)@.num as int, j) {
                            &&& (#[trigger] self@.regions[j]) is Some
                            &&& call_ensures(
                                fun,
                                (old(kernel)@.proc_at(j).appid, old(self)@.regions[j]->0),
                                self@.regions[j]->0,
                            )
                        } else {
                            self@.regions[j] == old(self)@.regions[j]
                        }
                    },
                forall|j: int| i <= j < n ==> self@.regions[j] == old(self)@.regions[j],
            decreases n - i,
        {
            let ghost k_before = kernel@;
            match AppliedGrant::get_if_allocated(self, kernel, i) {
                Some(ag) => {
                    let AppliedGrant { appid, addr, data } = ag;
                    let newdata = fun(appid, data);
                    let p = kernel.process_mut(i);
                    p.set_grant_pointer(self.grant_num, GrantPtr::Holding(addr));
                    self.regions[i] = Some(newdata);
                    proof {
                        let ii = i as int;
                        assert(kernel@.slots[ii]->0@.ptrs =~= k_before.slots[ii]->0@.ptrs);
                        assert(kernel@.slots[ii]->0@ == k_before.slots[ii]->0@);
                    }
                },
                None => {},
            }
            i = i + 1;
        }
    }

    /// A lazy, one-shot walk over the process table for this grant. The
    /// cursor starts at the first slot; each [`Iter::next`] reads the
    /// table as it stands at that moment, so state observed for a process
    /// reflects its condition when it is visited, not a snapshot taken
    /// here.
    pub fn iter(&self) -> (it: Iter)
        ensures
            it@.num == self@.num,
            it@.pos == 0,
    {
        Iter { grant_num: self.grant_num, pos: 0 }
    }

    /// Gives a borrow guard back: commits the (possibly updated) state
    /// value and republishes the region's address in the process's pointer
    /// slot, so the next access succeeds again. If the process departed
    /// while the guard was out, the value is discarded; its memory went
    /// with the process.
    pub fn exit(&mut self, kernel: &mut Kernel, guard: Borrowed<T>)
        requires
            old(self)@.wf_for(old(kernel)@),
            old(kernel)@.wf(),
        ensures
            final(self)@.wf_for(final(kernel)@),
            final(kernel)@.wf(),
            exit_commit_post(old(self)@, old(kernel)@, final(self)@, final(kernel)@, guard@),
    {
        if kernel.is_live(guard.appid) {
            let Borrowed { data, appid, addr } = guard;
            let p = kernel.process_mut(appid.idx);
            p.set_grant_pointer(self.grant_num, GrantPtr::Holding(addr));
            self.regions[appid.idx] = Some(data);
        }
    }
}

/// Mathematical image of an [`Iter`]: the grant index it walks for and
/// the next slot its cursor will look at.
#[verifier::ext_equal]
pub ghost struct IterV {
    pub num: usize,
    pub pos: usize,
}

/// The grant walk's cursor over the process table. Produced by
/// [`Grant::iter`]; not restartable. Advancing it filters lazily: empty
/// slots, inactive processes, unallocated regions and regions currently
/// borrowed elsewhere all contribute nothing.
pub struct Iter {
    grant_num: usize,
    pos: usize,
}

impl View for Iter {
    type V = IterV;

    closed spec fn view(&self) -> IterV {
        IterV { num: self.grant_num, pos: self.pos }
    }
}

/// Skipping unvisited slots does not change where the walk lands: if no
/// slot in `[from, to)` is visited, starting at `from` finds the same
/// next slot as starting at `to`.
pub proof fn lemma_next_visited_skip(k: KernelV, gnum: int, from: int, to: int)
    requires
        0 <= from <= to <= k.slots.len(),
        forall|j: int| from <= j < to ==> !visited(k, gnum, j),
    ensures
        next_visited(k, gnum, from) == next_visited(k, gnum, to),
    decreases to - from,
{
    if from < to {
        assert(!visited(k, gnum, from));
        lemma_next_visited_skip(k, gnum, from + 1, to);
    }
}

impl Iter {
    /// Advances to the next process whose region for this grant is
    /// published right now and returns its identity; `None` once the
    /// table is exhausted. The filtering happens here, against the table
    /// as it stands at this call.
    pub fn next(&mut self, kernel: &Kernel) -> (r: Option<AppId>)
        requires
            kernel@.wf(),
            old(self)@.num < kernel@.num_grants,
        ensures
            final(self)@.num == old(self)@.num,
            match next_visited(kernel@, old(self)@.num as int, old(self)@.pos as int) {
                Some(i) => {
                    &&& r == Some(kernel@.proc_at(i).appid)
                    &&& final(self)@.pos == i + 1
                },
                None => {
                    &&& r is None
                    &&& final(self)@.pos == kernel@.slots.len()
                },
            },
    {
        let n = kernel.slot_count();
        let start = self.pos;
        let mut i: usize = self.pos;
        if i > n {
            self.pos = n;
            return None;
        }
        while i < n
            invariant
                start <= i <= n,
                n == kernel@.slots.len(),
                kernel@.wf(),
                self@.num < kernel@.num_grants,
                *self == *old(self),
                start == old(self)@.pos,
                forall|j: int| start <= j < i ==> !visited(kernel@, self@.num as int, j),
            decreases n - i,
        {
            match kernel.process_at(i) {
                Some(p) => {
                    if p.is_active() {
                        match p.get_grant_pointer(self.grant_num) {
                            Some(GrantPtr::Holding(_)) => {
                                proof {
                                    lemma_next_visited_skip(
                                        kernel@,
                                        self@.num as int,
                                        start as int,
                                        i as int,
                                    );
                                }
                                let appid = p.identity();
                                self.pos = i + 1;
                                return Some(appid);
                            },
                            _ => {},
                        }
                    }
                },
                None => {},
            }
            i = i + 1;
        }
        proof {
            lemma_next_visited_skip(kernel@, self@.num as int, start as int, n as int);
        }
        self.pos = n;
        None
    }
}

/// Law: placement is idempotent. A successful access to a region that is
/// already allocated observes exactly the recorded address and the state
/// value the region held; nothing is placed anew.
pub proof fn lemma_enter_observes_placement<T>(
    g0: GrantV<T>,
    k0: KernelV,
    g1: GrantV<T>,
    k1: KernelV,
    app: AppId,
    b: GuardV<T>,
    a: usize,
)
    requires
        enter_ok_post(g0, k0, g1, k1, app, b),
        k0.proc(app).ptrs[g0.num as int] == GrantPtr::Holding(a),
    ensures
        b.addr == a,
        g0.regions[app.idx as int] is Some,
        b.data == g0.regions[app.idx as int]->0,
{
}

/// Law: across a full borrow round trip, the region's address is stable
/// and the committed value is what the next access reads. After a
/// successful `enter`, the matching `exit`, and a second successful
/// `enter` for the same process, the second guard holds the identical
/// address and the value the first guard committed.
pub proof fn lemma_placement_stable_across_round_trip<T>(
    g0: GrantV<T>,
    k0: KernelV,
    g1: GrantV<T>,
    k1: KernelV,
    b1: GuardV<T>,
    g2: GrantV<T>,
    k2: KernelV,
    g3: GrantV<T>,
    k3: KernelV,
    b2: GuardV<T>,
    app: AppId,
)
    requires
        g0.wf_for(k0),
        k0.wf(),
        enter_ok_post(g0, k0, g1, k1, app, b1),
        exit_commit_post(g1, k1, g2, k2, b1),
        enter_ok_post(g2, k2, g3, k3, app, b2),
    ensures
        b2.addr == b1.addr,
        b2.data == b1.data,
{
    let i = app.idx as int;
    assert(k1.live(app));
    assert(k2.slots[i]->0@.ptrs[g2.num as int] == GrantPtr::Holding(b1.addr));
}

/// Law: the borrow discipline rejects reentrant access. From the state a
/// successful `enter` leaves behind, a second `enter` for the same
/// process and the same grant is owed exactly the already-in-use error —
/// the outer borrow is never aliased.
pub proof fn lemma_reentrant_enter_fails<T>(
    g0: GrantV<T>,
    k0: KernelV,
    g1: GrantV<T>,
    k1: KernelV,
    app: AppId,
    b: GuardV<T>,
)
    requires
        g0.wf_for(k0),
        k0.wf(),
        enter_ok_post(g0, k0, g1, k1, app, b),
    ensures
        enter_outcome(g1, k1, app) == Some(Error::AlreadyInUse),
{
    assert(k1.live(app));
}

/// Law: a normal completion never leaves the slot locked. After a
/// successful `enter` whose guard is given back while the process is
/// still resident and active, the next `enter` for the same process and
/// grant is owed success.
pub proof fn lemma_exit_restores_access<T>(
    g0: GrantV<T>,
    k0: KernelV,
    g1: GrantV<T>,
    k1: KernelV,
    b: GuardV<T>,
    g2: GrantV<T>,
    k2: KernelV,
    app: AppId,
)
    requires
        g0.wf_for(k0),
        k0.wf(),
        enter_ok_post(g0, k0, g1, k1, app, b),
        exit_commit_post(g1, k1, g2, k2, b),
    ensures
        enter_outcome(g2, k2, app) is None,
{
    let i = app.idx as int;
    assert(k1.live(app));
    assert(k2.slots[i]->0@.ptrs[g1.num as int] == GrantPtr::Holding(b.addr));
}

/// Law: taking a guard never un-allocates anything. Across a successful
/// `enter`, every grant-pointer slot of every process that was past its
/// first allocation stays so; only the entered slot moves, and it moves
/// to the borrow sentinel, not back to unallocated.
pub proof fn lemma_enter_never_unallocates<T>(
    g0: GrantV<T>,
    k0: KernelV,
    g1: GrantV<T>,
    k1: KernelV,
    app: AppId,
    b: GuardV<T>,
)
    requires
        g0.wf_for(k0),
        k0.wf(),
        enter_ok_post(g0, k0, g1, k1, app, b),
    ensures
        forall|s: int, gi: int|
            0 <= s < k0.slots.len() && k0.slots[s] is Some && 0 <= gi < k0.num_grants
                && !((#[trigger] k0.slots[s]->0@.ptrs[gi]) is Empty) ==> {
                &&& k1.slots[s] is Some
                &&& !(k1.slots[s]->0@.ptrs[gi] is Empty)
            },
{
    assert forall|s: int, gi: int|
        0 <= s < k0.slots.len() && k0.slots[s] is Some && 0 <= gi < k0.num_grants
            && !((#[trigger] k0.slots[s]->0@.ptrs[gi]) is Empty) implies {
        &&& k1.slots[s] is Some
        &&& !(k1.slots[s]->0@.ptrs[gi] is Empty)
    } by {
        if s == app.idx as int {
            assert(k1.slots[s]->0@.ptrs == k0.slots[s]->0@.ptrs.update(
                g0.num as int,
                GrantPtr::Borrowed,
            ));
        }
    }
}

/// Law: giving a guard back never un-allocates anything either. The
/// committed slot returns to holding its (stable) address; every other
/// slot is untouched.
pub proof fn lemma_exit_never_unallocates<T>(
    g0: GrantV<T>,
    k0: KernelV,
    g1: GrantV<T>,
    k1: KernelV,
    b: GuardV<T>,
)
    requires
        g0.wf_for(k0),
        k0.wf(),
        exit_commit_post(g0, k0, g1, k1, b),
    ensures
        forall|s: int, gi: int|
            0 <= s < k0.slots.len() && k0.slots[s] is Some && 0 <= gi < k0.num_grants
                && !((#[trigger] k0.slots[s]->0@.ptrs[gi]) is Empty) ==> {
                &&& k1.slots[s] is Some
                &&& !(k1.slots[s]->0@.ptrs[gi] is Empty)
            },
{
    assert forall|s: int, gi: int|
        0 <= s < k0.slots.len() && k0.slots[s] is Some && 0 <= gi < k0.num_grants
            && !((#[trigger] k0.slots[s]->0@.ptrs[gi]) is Empty) implies {
        &&& k1.slots[s] is Some
        &&& !(k1.slots[s]->0@.ptrs[gi] is Empty)
    } by {
        if k0.live(b.appid) && s == b.appid.idx as int {
            assert(k1.slots[s]->0@.ptrs == k0.slots[s]->0@.ptrs.update(
                g0.num as int,
                GrantPtr::Holding(b.addr),
            ));
        }
    }
}

/// Law: the walk yields each slot at most once. What `next_visited`
/// returns is the least visited slot at or past the cursor, and the
/// cursor then moves strictly beyond it, so no slot is ever produced
/// twice.
pub proof fn lemma_walk_yields_least_visited(k: KernelV, gnum: int, from: int, i: int)
    requires
        next_visited(k, gnum, from) == Some(i),
    ensures
        from <= i,
        visited(k, gnum, i),
        forall|j: int| from <= j < i ==> !visited(k, gnum, j),
    decreases k.slots.len() - from,
{
    if !(from < 0 || from >= k.slots.len()) && !visited(k, gnum, from) {
        lemma_walk_yields_least_visited(k, gnum, from + 1, i);
    }
}

} // verus!
