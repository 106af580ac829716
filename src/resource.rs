//! A resource's shared state, and the handles through which callers reach it.

use vstd::prelude::*;
use crate::error::{reported, ErrorKind, QrmiError};
use crate::lease::{acquired, released, Acquire, Lease};
use crate::models::{copy_bytes, Payload, Target, TaskResult};
use crate::resource_type::{kind_label, ResourceType};
use crate::task_status::TaskStatus;
use crate::tasks::{
    advanced, keeps_terminal, moves_by_steps, result_reply, started, status_reply, stopped,
    TaskBoard, TaskView,
};

verus! {

/// The shared state of one remote resource: whether it is reachable, its last known
/// configuration, its lease and its tasks. Every handle on the resource works on this
/// one value, so the lease excludes other handles as well as other calls.
pub struct Device {
    resource_id: String,
    reachable: bool,
    target: Vec<u8>,
    lease: Lease,
    tasks: TaskBoard,
}

impl Device {
    pub closed spec fn ident(&self) -> Seq<char> {
        self.resource_id@
    }

    pub closed spec fn reachable(&self) -> bool {
        self.reachable
    }

    /// The backend's last known configuration.
    pub closed spec fn target_data(&self) -> Seq<u8> {
        self.target@
    }

    pub closed spec fn lease(&self) -> Lease {
        self.lease
    }

    pub closed spec fn tasks(&self) -> Seq<TaskView> {
        self.tasks.view()
    }

    /// The lease is well formed, and the task at position `i` carries the identifier
    /// of the `i + 1`-th submission.
    pub closed spec fn wf(&self) -> bool {
        self.lease.wf() && self.tasks.wf()
    }

    /// `a` and `b` agree on the resource, its reachability and its configuration.
    pub open spec fn same_setup(a: Device, b: Device) -> bool {
        &&& a.ident() == b.ident()
        &&& a.reachable() == b.reachable()
        &&& a.target_data() == b.target_data()
    }

    /// The state of a resource nobody has used yet: reachable, not leased, no tasks.
    pub fn new(resource_id: &str) -> (r: Device)
        ensures
            r.wf(),
            r.ident() == resource_id@,
            r.reachable(),
            r.target_data() == Seq::<u8>::empty(),
            r.lease().holder() is None,
            r.lease().issued() == 0,
            r.tasks() == Seq::<TaskView>::empty(),
    {
        Device {
            resource_id: String::from_str(resource_id),
            reachable: true,
            target: Vec::new(),
            lease: Lease::new(),
            tasks: TaskBoard::new(),
        }
    }

    pub fn resource_id(&self) -> (r: String)
        ensures
            r@ == self.ident(),
    {
        self.resource_id.clone()
    }

    /// Records the outcome of a connectivity probe.
    pub fn set_accessible(&mut self, reachable: bool)
        requires
            old(self).wf(),
        ensures
            final(self).wf(),
            final(self).reachable() == reachable,
            final(self).ident() == old(self).ident(),
            final(self).target_data() == old(self).target_data(),
            final(self).lease() == old(self).lease(),
            final(self).tasks() == old(self).tasks(),
    {
        self.reachable = reachable;
    }

    /// Records a new configuration reported by the backend.
    pub fn update_target(&mut self, target: Target)
        requires
            old(self).wf(),
        ensures
            final(self).wf(),
            final(self).target_data() == target.data@,
            final(self).ident() == old(self).ident(),
            final(self).reachable() == old(self).reachable(),
            final(self).lease() == old(self).lease(),
            final(self).tasks() == old(self).tasks(),
    {
        self.target = target.data;
    }

    /// Records the backend's progress on task `task_id`: a lifecycle step other than
    /// cancellation, with what the task produced.
    pub fn task_progress(&mut self, task_id: &str, next: TaskStatus, output: Vec<u8>) -> (r: Result<
        (),
        QrmiError,
    >)
        requires
            old(self).wf(),
        ensures
            final(self).wf(),
            reported(r),
            Self::same_setup(*old(self), *final(self)),
            final(self).lease() == old(self).lease(),
            moves_by_steps(old(self).tasks(), final(self).tasks()),
            keeps_terminal(old(self).tasks(), final(self).tasks()),
            advanced(old(self).tasks(), final(self).tasks(), task_id@, next, output@, r),
    {
        self.tasks.advance(task_id, next, output)
    }
}

/// A caller's handle on one resource. The backend kind is chosen once, at
/// construction, and fixed for the handle's lifetime. The handle holds no lease or
/// task state of its own: its operations act on the resource's `Device`, which only
/// they change.
pub struct PyQuantumResource {
    resource_id: String,
    resource_type: ResourceType,
}

impl PyQuantumResource {
    pub closed spec fn ident(&self) -> Seq<char> {
        self.resource_id@
    }

    pub closed spec fn kind(&self) -> ResourceType {
        self.resource_type
    }

    /// A handle on `resource_id` through a backend of kind `resource_type`. Building
    /// it touches no resource state: it takes no `Device`, so no lease is acquired,
    /// none is released and no task is submitted.
    pub fn new(resource_id: &str, resource_type: ResourceType) -> (r: Self)
        ensures
            r.ident() == resource_id@,
            r.kind() == resource_type,
    {
        PyQuantumResource { resource_id: String::from_str(resource_id), resource_type }
    }

    /// Whether the device is reachable. Never fails and changes nothing.
    pub fn is_accessible(&self, dev: &Device) -> (r: bool)
        requires
            dev.ident() == self.ident(),
        ensures
            r == dev.reachable(),
    {
        dev.reachable
    }

    /// One acquisition attempt on the resource's lease. If no one holds it, it is
    /// granted at once under a fresh token; if anyone holds it, through this handle or
    /// another, the answer is to wait and ask again.
    pub fn acquire(&self, dev: &mut Device) -> (r: Result<Acquire, QrmiError>)
        requires
            old(dev).wf(),
            old(dev).ident() == self.ident(),
        ensures
            final(dev).wf(),
            reported(r),
            Device::same_setup(*old(dev), *final(dev)),
            final(dev).tasks() == old(dev).tasks(),
            !old(dev).reachable() ==> r is Err && r->Err_0.kind == ErrorKind::Unreachable
                && final(dev).lease() == old(dev).lease(),
            old(dev).reachable() ==> acquired(old(dev).lease(), final(dev).lease(), r),
    {
        if !dev.reachable {
            return Err(QrmiError::new(ErrorKind::Unreachable, "the device cannot be reached"));
        }
        dev.lease.try_acquire()
    }

    /// Releases the resource's lease, given the acquisition token of its holder.
    pub fn release(&self, dev: &mut Device, id: &str) -> (r: Result<(), QrmiError>)
        requires
            old(dev).wf(),
            old(dev).ident() == self.ident(),
        ensures
            final(dev).wf(),
            reported(r),
            Device::same_setup(*old(dev), *final(dev)),
            final(dev).tasks() == old(dev).tasks(),
            !old(dev).reachable() ==> r is Err && r->Err_0.kind == ErrorKind::Unreachable
                && final(dev).lease() == old(dev).lease(),
            old(dev).reachable() ==> released(old(dev).lease(), final(dev).lease(), id@, r),
    {
        if !dev.reachable {
            return Err(QrmiError::new(ErrorKind::Unreachable, "the device cannot be reached"));
        }
        dev.lease.release(id)
    }

    /// Submits a task and returns its identifier, which names no earlier task of the
    /// resource. The resource's lease must be held.
    pub fn task_start(&self, dev: &mut Device, payload: Payload) -> (r: Result<String, QrmiError>)
        requires
            old(dev).wf(),
            old(dev).ident() == self.ident(),
        ensures
            final(dev).wf(),
            reported(r),
            Device::same_setup(*old(dev), *final(dev)),
            final(dev).lease() == old(dev).lease(),
            keeps_terminal(old(dev).tasks(), final(dev).tasks()),
            !old(dev).reachable() ==> r is Err && r->Err_0.kind == ErrorKind::Unreachable
                && final(dev).tasks() == old(dev).tasks(),
            old(dev).reachable() && old(dev).lease().holder() is None ==> r is Err
                && r->Err_0.kind == ErrorKind::OwnershipViolation && final(dev).tasks() == old(
                dev).tasks(),
            old(dev).reachable() && old(dev).lease().holder() is Some ==> started(
                old(dev).tasks(),
                final(dev).tasks(),
                payload.data@,
                r,
            ),
    {
        if !dev.reachable {
            return Err(QrmiError::new(ErrorKind::Unreachable, "the device cannot be reached"));
        }
        if !dev.lease.is_held() {
            return Err(QrmiError::new(ErrorKind::OwnershipViolation, "no lease is held"));
        }
        dev.tasks.task_start(payload)
    }

    /// Stops the task specified by `task_id`. A task still queued or running is
    /// cancelled; stopping a terminal task succeeds and changes nothing.
    pub fn task_stop(&self, dev: &mut Device, task_id: &str) -> (r: Result<(), QrmiError>)
        requires
            old(dev).wf(),
            old(dev).ident() == self.ident(),
        ensures
            final(dev).wf(),
            reported(r),
            Device::same_setup(*old(dev), *final(dev)),
            final(dev).lease() == old(dev).lease(),
            moves_by_steps(old(dev).tasks(), final(dev).tasks()),
            keeps_terminal(old(dev).tasks(), final(dev).tasks()),
            !old(dev).reachable() ==> r is Err && r->Err_0.kind == ErrorKind::Unreachable
                && final(dev).tasks() == old(dev).tasks(),
            old(dev).reachable() ==> stopped(old(dev).tasks(), final(dev).tasks(), task_id@, r),
    {
        if !dev.reachable {
            return Err(QrmiError::new(ErrorKind::Unreachable, "the device cannot be reached"));
        }
        dev.tasks.task_stop(task_id)
    }

    /// The current status of the task specified by `task_id`.
    pub fn task_status(&self, dev: &Device, task_id: &str) -> (r: Result<TaskStatus, QrmiError>)
        requires
            dev.wf(),
            dev.ident() == self.ident(),
        ensures
            reported(r),
            !dev.reachable() ==> r is Err && r->Err_0.kind == ErrorKind::Unreachable,
            dev.reachable() ==> status_reply(dev.tasks(), task_id@, r),
    {
        if !dev.reachable {
            return Err(QrmiError::new(ErrorKind::Unreachable, "the device cannot be reached"));
        }
        dev.tasks.task_status(task_id)
    }

    /// What the task produced, once it has reached a terminal status.
    pub fn task_result(&self, dev: &Device, task_id: &str) -> (r: Result<TaskResult, QrmiError>)
        requires
            dev.wf(),
            dev.ident() == self.ident(),
        ensures
            reported(r),
            !dev.reachable() ==> r is Err && r->Err_0.kind == ErrorKind::Unreachable,
            dev.reachable() ==> result_reply(dev.tasks(), task_id@, r),
    {
        if !dev.reachable {
            return Err(QrmiError::new(ErrorKind::Unreachable, "the device cannot be reached"));
        }
        dev.tasks.task_result(task_id)
    }

    /// The device's capability and constraint descriptor: the backend's last known
    /// configuration, in its own serialized format.
    pub fn target(&self, dev: &Device) -> (r: Result<Target, QrmiError>)
        requires
            dev.ident() == self.ident(),
        ensures
            reported(r),
            !dev.reachable() ==> r is Err && r->Err_0.kind == ErrorKind::Unreachable,
            dev.reachable() ==> r is Ok && r->Ok_0.data@ == dev.target_data(),
    {
        if !dev.reachable {
            return Err(QrmiError::new(ErrorKind::Unreachable, "the device cannot be reached"));
        }
        Ok(Target { data: copy_bytes(&dev.target) })
    }

    /// Key-value facts about the handle's resource: its identifier and the backend
    /// kind. Never fails.
    pub fn metadata(&self) -> (r: Vec<(String, String)>)
        ensures
            r@.len() == 2,
            r@[0].0@ == "resource_id"@,
            r@[0].1@ == self.ident(),
            r@[1].0@ == "resource_type"@,
            r@[1].1@ == kind_label(self.kind()),
    {
        let mut r: Vec<(String, String)> = Vec::new();
        r.push((String::from_str("resource_id"), self.resource_id.clone()));
        r.push((String::from_str("resource_type"), String::from_str(self.resource_type.name())));
        r
    }

    pub fn resource_type(&self) -> (r: ResourceType)
        ensures
            r == self.kind(),
    {
        self.resource_type
    }

    pub fn resource_id(&self) -> (r: String)
        ensures
            r@ == self.ident(),
    {
        self.resource_id.clone()
    }
}

} // verus!
