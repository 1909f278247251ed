//! The kernel's process registry: a fixed-size table of process slots, a
//! lookup by identity, and the access paths the grant core needs to reach a
//! process. The number of grant identities is fixed when the registry is
//! created, mirroring driver registration at kernel start-up.

use vstd::prelude::*;

use crate::process::{AppId, GrantPtr, Process, ProcessV};

verus! {

/// Mathematical image of a [`Kernel`]: the process table plus the two
/// registry parameters. Slot contents are inspected through each process's
/// own view.
#[verifier::ext_equal]
pub ghost struct KernelV {
    /// The process table; `None` marks a slot with no resident process.
    pub slots: Seq<Option<Process>>,
    /// How many grant identities every process's pointer table covers.
    pub num_grants: usize,
    /// Next generation number to hand to a new process.
    pub next_uid: usize,
}

impl KernelV {
    /// Registry invariant: every resident process sits in the slot its
    /// identity names, carries a generation number from the past, keeps a
    /// pointer table sized for every registered grant, and has not
    /// allocated past its budget.
    pub open spec fn wf(self) -> bool {
        forall|i: int|
            0 <= i < self.slots.len() && self.slots[i] is Some ==> {
                let p = (#[trigger] self.slots[i])->0@;
                &&& p.appid.idx == i
                &&& p.appid.uid < self.next_uid
                &&& p.ptrs.len() == self.num_grants
                &&& p.brk <= p.limit
            }
    }

    /// Whether `app` names a process that is resident right now.
    pub open spec fn live(self, app: AppId) -> bool {
        &&& app.idx < self.slots.len()
        &&& self.slots[app.idx as int] is Some
        &&& self.slots[app.idx as int]->0@.appid == app
    }

    /// The view of the resident process named by `app`.
    pub open spec fn proc(self, app: AppId) -> ProcessV
        recommends
            self.live(app),
    {
        self.slots[app.idx as int]->0@
    }

    /// The view of the process resident in `slot`.
    pub open spec fn proc_at(self, slot: int) -> ProcessV
        recommends
            0 <= slot < self.slots.len(),
            self.slots[slot] is Some,
    {
        self.slots[slot]->0@
    }
}

/// The process registry. Slots are fixed at creation; processes come and go
/// inside them. This stands for the kernel's process table; scheduling and
/// memory-layout management live outside this crate.
pub struct Kernel {
    processes: Vec<Option<Process>>,
    num_grants: usize,
    next_uid: usize,
}

impl View for Kernel {
    type V = KernelV;

    closed spec fn view(&self) -> KernelV {
        KernelV {
            slots: self.processes@,
            num_grants: self.num_grants,
            next_uid: self.next_uid,
        }
    }
}

impl Kernel {
    /// An empty registry with `num_slots` process slots and room in every
    /// process's pointer table for `num_grants` grant identities.
    pub fn new(num_slots: usize, num_grants: usize) -> (k: Kernel)
        ensures
            k@.slots.len() == num_slots,
            forall|i: int| 0 <= i < num_slots ==> k@.slots[i] is None,
            k@.num_grants == num_grants,
            k@.next_uid == 0,
            k@.wf(),
    {
        let mut processes: Vec<Option<Process>> = Vec::new();
        let mut i: usize = 0;
        while i < num_slots
            invariant
                i <= num_slots,
                processes@.len() == i,
                forall|j: int| 0 <= j < i ==> processes@[j] is None,
            decreases num_slots - i,
        {
            processes.push(None);
            i = i + 1;
        }
        Kernel { processes, num_grants, next_uid: 0 }
    }

    /// How many process-table slots the registry has.
    pub fn slot_count(&self) -> (r: usize)
        ensures
            r == self@.slots.len(),
    {
        self.processes.len()
    }

    /// How many grant identities are registered.
    pub fn grant_count(&self) -> (r: usize)
        ensures
            r == self@.num_grants,
    {
        self.num_grants
    }

    /// Whether `app` still names a resident process.
    pub fn is_live(&self, app: AppId) -> (r: bool)
        ensures
            r == self@.live(app),
    {
        if app.idx < self.processes.len() {
            match &self.processes[app.idx] {
                Some(p) => p.identity() == app,
                None => false,
            }
        } else {
            false
        }
    }

    /// Puts a new process with memory budget `limit` into the first free
    /// slot. Fails when the table is full or the generation numbers are
    /// exhausted; nothing changes in that case.
    pub fn add_process(&mut self, limit: usize) -> (r: Option<AppId>)
        requires
            old(self)@.wf(),
        ensures
            final(self)@.wf(),
            final(self)@.num_grants == old(self)@.num_grants,
            final(self)@.slots.len() == old(self)@.slots.len(),
            match r {
                Some(app) => {
                    &&& app.idx < old(self)@.slots.len()
                    &&& app.uid == old(self)@.next_uid
                    &&& old(self)@.slots[app.idx as int] is None
                    &&& forall|j: int| 0 <= j < app.idx ==> old(self)@.slots[j] is Some
                    &&& final(self)@.slots[app.idx as int] matches Some(p)
                        && p@.appid == app
                        && p@.active
                        && p@.brk == 0
                        && p@.limit == limit
                        && p@.ptrs.len() == old(self)@.num_grants
                        && (forall|g: int| 0 <= g < p@.ptrs.len() ==> p@.ptrs[g] == GrantPtr::Empty)
                    &&& forall|j: int|
                        0 <= j < old(self)@.slots.len() && j != app.idx
                            ==> final(self)@.slots[j] == old(self)@.slots[j]
                    &&& final(self)@.next_uid == old(self)@.next_uid + 1
                    &&& final(self)@.live(app)
                },
                None => {
                    &&& final(self)@ == old(self)@
                    &&& old(self)@.next_uid == usize::MAX
                        || (forall|j: int|
                            0 <= j < old(self)@.slots.len() ==> old(self)@.slots[j] is Some)
                },
            },
    {
        if self.next_uid == usize::MAX {
            return None;
        }
        let n = self.processes.len();
        let mut i: usize = 0;
        while i < n
            invariant
                i <= n,
                n == self.processes.len(),
                forall|j: int| 0 <= j < i ==> self@.slots[j] is Some,
                *self == *old(self),
                old(self)@.wf(),
                self.next_uid < usize::MAX,
            decreases n - i,
        {
            if self.processes[i].is_none() {
                let app = AppId { idx: i, uid: self.next_uid };
                let p = Process::new(app, self.num_grants, limit);
                self.processes[i] = Some(p);
                self.next_uid = self.next_uid + 1;
                return Some(app);
            }
            i = i + 1;
        }
        None
    }

    /// Takes the process named by `app` out of the registry, standing for
    /// process exit or restart. Its memory, grant regions included, is
    /// reclaimed wholesale by the process manager; the grant core has no
    /// separate teardown step.
    pub fn remove_process(&mut self, app: AppId)
        ensures
            old(self)@.live(app) ==> final(self)@ == (KernelV {
                slots: old(self)@.slots.update(app.idx as int, None),
                ..old(self)@
            }),
            !old(self)@.live(app) ==> final(self)@ == old(self)@,
            old(self)@.wf() ==> final(self)@.wf(),
    {
        if self.is_live(app) {
            self.processes[app.idx] = None;
        }
    }

    /// Marks the process named by `app` able or unable to service grant
    /// requests, standing for the phases of a restart. Reports whether the
    /// process was found.
    pub fn set_process_active(&mut self, app: AppId, active: bool) -> (r: bool)
        ensures
            r == old(self)@.live(app),
            final(self)@.num_grants == old(self)@.num_grants,
            final(self)@.next_uid == old(self)@.next_uid,
            final(self)@.slots.len() == old(self)@.slots.len(),
            old(self)@.live(app) ==> {
                &&& final(self)@.slots[app.idx as int] matches Some(p)
                    && p@ == (ProcessV { active, ..old(self)@.proc(app) })
                &&& forall|j: int|
                    0 <= j < old(self)@.slots.len() && j != app.idx
                        ==> final(self)@.slots[j] == old(self)@.slots[j]
            },
            !old(self)@.live(app) ==> final(self)@ == old(self)@,
            old(self)@.wf() ==> final(self)@.wf(),
    {
        if self.is_live(app) {
            let p = self.process_mut(app.idx);
            p.set_active(active);
            true
        } else {
            false
        }
    }

    /// Shared access to the process in `slot`, for non-allocating walks of
    /// the table.
    pub fn process_at(&self, slot: usize) -> (r: Option<&Process>)
        requires
            slot < self@.slots.len(),
        ensures
            r is Some <==> self@.slots[slot as int] is Some,
            r matches Some(p) ==> *p == self@.slots[slot as int]->0,
    {
        self.processes[slot].as_ref()
    }

    /// Exclusive access to the process in `slot`; the caller's writes land
    /// back in the table when the borrow ends.
    pub fn process_mut(&mut self, slot: usize) -> (p: &mut Process)
        requires
            slot < old(self)@.slots.len(),
            old(self)@.slots[slot as int] is Some,
        ensures
            *p == old(self)@.slots[slot as int]->0,
            final(self)@.slots == old(self)@.slots.update(slot as int, Some(*final(p))),
            final(self)@.num_grants == old(self)@.num_grants,
            final(self)@.next_uid == old(self)@.next_uid,
    {
        let r = &mut self.processes[slot];
        match r {
            Some(p) => p,
            None => vstd::pervasive::unreached(),
        }
    }
}

} // verus!
