//! The reference-counted object model and activation bridge.
//!
//! `HostRuntime` is the library's ledger of the foreign runtime's state:
//! which classes can be activated, which object instances are live, and
//! how many references each instance holds.  A `Handle` owns exactly one
//! of those references; duplicating a handle increments the count, and
//! releasing one decrements it exactly once and nulls the handle, so a
//! second release of the same handle is a no-op.  An instance is
//! destroyed precisely when its count reaches zero.
//!
//! A driver that makes the raw foreign calls keeps one ledger object per
//! live foreign pointer; the contracts here are the discipline those
//! calls must follow.

use vstd::prelude::*;

use crate::iid::{iid_iactivation_factory, iid_iunknown, spec_iid_iactivation_factory,
    spec_iid_iunknown, InterfaceId};
use crate::status::{ComError, CLASS_E_CLASSNOTAVAILABLE, CLASS_E_NOAGGREGATION, E_NOINTERFACE};

verus! {

/// Concurrency model requested from the process-wide runtime
/// initialization call.
#[derive(Clone, Copy, PartialEq, Eq, Structural, Debug)]
pub enum RoInitType {
    MultiThreaded,
    SingleThreaded,
}

impl RoInitType {
    /// The numeric value of the flag in the host ABI.
    pub open spec fn spec_code(self) -> u32 {
        match self {
            RoInitType::MultiThreaded => 0,
            RoInitType::SingleThreaded => 1,
        }
    }

    pub fn code(self) -> (r: u32)
        ensures
            r == self.spec_code(),
    {
        match self {
            RoInitType::MultiThreaded => 0,
            RoInitType::SingleThreaded => 1,
        }
    }
}

/// An opaque owning handle to a live foreign object instance, or null.
///
/// `obj` is the instance's identity in the ledger (a stand-in for the raw
/// pointer); zero is the null handle.  Two handles are equal exactly when
/// their identities are equal — never by looking inside the object.
#[derive(Clone, Copy, PartialEq, Eq, Structural, Debug)]
pub struct Handle {
    pub obj: u64,
}

impl Handle {
    /// The null handle: owns nothing, releases to a no-op.
    pub fn null() -> (h: Handle)
        ensures
            h.obj == 0,
    {
        Handle { obj: 0 }
    }

    pub open spec fn is_null(self) -> bool {
        self.obj == 0
    }
}

/// One live (or destroyed) foreign object instance in the ledger.
pub struct ObjectInstance {
    /// How many owned references the instance currently has.
    pub ref_count: u32,
    /// Set exactly when the count reaches zero and the host destroys the
    /// instance; a destroyed instance is never revived.
    pub destroyed: bool,
    /// The interfaces the instance implements.
    pub iids: Vec<InterfaceId>,
    /// The native window the hosted surface is parented under; zero while
    /// unattached.
    pub attached_window: u64,
    /// The native window the surface created for itself on attachment;
    /// zero while unattached.
    pub surface_window: u64,
    /// For an activation factory: the class it creates; zero otherwise.
    pub factory_for: u64,
}

/// One activatable class known to the runtime.
pub struct ClassRegistration {
    /// The interfaces every instance of the class implements.
    pub iids: Vec<InterfaceId>,
    /// Whether the runtime serves an activation factory for the class.
    /// A class whose factory is missing is a known-incompatible
    /// activation path: the lookup is rejected instead of attempted.
    pub factory_available: bool,
}

/// The instance after one more reference has been taken.
pub open spec fn after_addref(o: ObjectInstance) -> ObjectInstance {
    ObjectInstance { ref_count: (o.ref_count + 1) as u32, ..o }
}

/// The instance after one reference has been given up: the count drops by
/// one, and the host destroys the instance exactly when the released
/// reference was the last.
pub open spec fn after_release(o: ObjectInstance) -> ObjectInstance {
    ObjectInstance {
        ref_count: (o.ref_count - 1) as u32,
        destroyed: o.ref_count == 1,
        ..o
    }
}

/// A freshly activated instance of a class implementing `iids`: one owned
/// reference, not destroyed, not attached, not a factory.
pub open spec fn fresh_instance_of(o: ObjectInstance, iids: Seq<InterfaceId>) -> bool {
    &&& o.ref_count == 1
    &&& !o.destroyed
    &&& o.iids@ =~= iids
    &&& o.attached_window == 0
    &&& o.surface_window == 0
    &&& o.factory_for == 0
}

/// A freshly produced activation factory for class `class_id`: one owned
/// reference, implementing the base and activation-factory interfaces.
pub open spec fn fresh_factory_for(o: ObjectInstance, class_id: u64) -> bool {
    &&& o.ref_count == 1
    &&& !o.destroyed
    &&& o.iids@ =~= seq![spec_iid_iunknown(), spec_iid_iactivation_factory()]
    &&& o.attached_window == 0
    &&& o.surface_window == 0
    &&& o.factory_for == class_id
}

/// Whether an instance implements an interface.
pub open spec fn object_implements(o: ObjectInstance, iid: InterfaceId) -> bool {
    exists|i: int| 0 <= i < o.iids@.len() && o.iids@[i] == iid
}

/// An interface an instance implements is still implemented by any
/// instance carrying the same interface list — reference counting and
/// attachment never change what an object is.
pub proof fn lemma_implements_same_iids(a: ObjectInstance, b: ObjectInstance, iid: InterfaceId)
    requires
        a.iids@ == b.iids@,
        object_implements(a, iid),
    ensures
        object_implements(b, iid),
{
    let j = choose|j: int| 0 <= j < a.iids@.len() && a.iids@[j] == iid;
    assert(b.iids@[j] == iid);
}

/// The new ledger extends the old by exactly one instance.
pub open spec fn grows_by_one(old_s: Seq<ObjectInstance>, new_s: Seq<ObjectInstance>) -> bool {
    &&& new_s.len() == old_s.len() + 1
    &&& forall|i: int| 0 <= i < old_s.len() ==> new_s[i] == old_s[i]
}

/// The ledger of the foreign runtime: initialization state, registered
/// classes and live object instances.  Class `c` lives at index `c - 1`
/// of `classes`; instance `n` at index `n - 1` of `objects`; zero is
/// never a valid identity, so it can stand for null.
pub struct HostRuntime {
    /// Whether the process-wide runtime initialization call has been made
    /// on this thread.
    pub initialized: bool,
    pub classes: Vec<ClassRegistration>,
    pub objects: Vec<ObjectInstance>,
}

impl HostRuntime {
    pub open spec fn valid_class_id(self, class_id: u64) -> bool {
        1 <= class_id <= self.classes@.len()
    }

    pub open spec fn class_of(self, class_id: u64) -> ClassRegistration {
        self.classes@[class_id - 1]
    }

    pub open spec fn valid_object_id(self, id: u64) -> bool {
        1 <= id <= self.objects@.len()
    }

    pub open spec fn object_of(self, id: u64) -> ObjectInstance {
        self.objects@[id - 1]
    }

    /// A live object: a valid identity whose instance still holds at
    /// least one reference.
    pub open spec fn live_object(self, id: u64) -> bool {
        &&& self.valid_object_id(id)
        &&& !self.object_of(id).destroyed
        &&& self.object_of(id).ref_count >= 1
    }

    /// A handle the ledger accepts: null, or owning a reference to a live
    /// instance.
    pub open spec fn live_handle(self, h: Handle) -> bool {
        h.obj == 0 || self.live_object(h.obj)
    }

    /// The ledger's invariant: an instance is destroyed exactly when its
    /// count is zero; attachment state is all-or-nothing, with the
    /// surface's own window distinct from the window it is parented
    /// under; a factory's class is registered.
    pub open spec fn wf(self) -> bool {
        forall|i: int|
            0 <= i < self.objects@.len() ==> {
                let o = #[trigger] self.objects@[i];
                &&& (o.destroyed <==> o.ref_count == 0)
                &&& (o.attached_window != 0 ==> o.surface_window != 0 && o.surface_window
                    != o.attached_window)
                &&& (o.attached_window == 0 ==> o.surface_window == 0)
                &&& (o.factory_for != 0 ==> 1 <= o.factory_for <= self.classes@.len())
            }
    }

    /// A fresh ledger: nothing initialized, no classes, no instances.
    pub fn new() -> (rt: HostRuntime)
        ensures
            !rt.initialized,
            rt.classes@.len() == 0,
            rt.objects@.len() == 0,
            rt.wf(),
    {
        HostRuntime { initialized: false, classes: Vec::new(), objects: Vec::new() }
    }

    /// Registers one activatable class and returns its identity.
    pub fn register_class(&mut self, iids: Vec<InterfaceId>, factory_available: bool) -> (class_id:
        u64)
        requires
            old(self).wf(),
            old(self).classes@.len() < 0xFFFF_FFFF_FFFF_FFFF,
        ensures
            class_id == old(self).classes@.len() + 1,
            final(self).valid_class_id(class_id),
            final(self).classes@.len() == old(self).classes@.len() + 1,
            forall|i: int|
                0 <= i < old(self).classes@.len() ==> final(self).classes@[i] == old(
                    self,
                ).classes@[i],
            final(self).class_of(class_id).iids@ =~= iids@,
            final(self).class_of(class_id).factory_available == factory_available,
            final(self).initialized == old(self).initialized,
            final(self).objects == old(self).objects,
            final(self).wf(),
    {
        let id: u64 = (self.classes.len() as u64) + 1;
        self.classes.push(ClassRegistration { iids, factory_available });
        id
    }
}

/// The process-wide runtime initialization call, once per thread with an
/// explicit concurrency-model flag; idempotent, and always succeeds in
/// the ledger.
pub fn ro_initialize(rt: &mut HostRuntime, init_type: RoInitType) -> (r: Result<(), ComError>)
    requires
        old(rt).wf(),
    ensures
        r == Ok::<(), ComError>(()),
        final(rt).initialized,
        final(rt).classes == old(rt).classes,
        final(rt).objects == old(rt).objects,
        final(rt).wf(),
{
    rt.initialized = true;
    Ok(())
}

/// The explicit teardown hook run at process exit: drops the initialized
/// state and touches nothing else.
pub fn ro_uninitialize(rt: &mut HostRuntime)
    requires
        old(rt).wf(),
    ensures
        !final(rt).initialized,
        final(rt).classes == old(rt).classes,
        final(rt).objects == old(rt).objects,
        final(rt).wf(),
{
    rt.initialized = false;
}

/// Copies an interface list; instances carry their own copy of the
/// class's list.
fn copy_iids(v: &Vec<InterfaceId>) -> (r: Vec<InterfaceId>)
    ensures
        r@ =~= v@,
{
    let mut r: Vec<InterfaceId> = Vec::new();
    let mut i: usize = 0;
    while i < v.len()
        invariant
            i <= v@.len(),
            r@ =~= v@.subrange(0, i as int),
        decreases v@.len() - i,
    {
        r.push(v[i]);
        i = i + 1;
    }
    proof {
        assert(r@ =~= v@);
    }
    r
}

impl HostRuntime {
    /// Direct static activation: creates a new instance of a registered
    /// class with no arguments and hands back the one owning handle.
    ///
    /// Activation before initialization is a precondition violation
    /// reported as its own error; an unregistered class is rejected with
    /// the class-not-available status.  On success the new instance holds
    /// exactly one reference.
    pub fn activate_instance(&mut self, class_id: u64) -> (r: Result<Handle, ComError>)
        requires
            old(self).wf(),
            old(self).objects@.len() < 0xFFFF_FFFF_FFFF_FFFF,
        ensures
            final(self).wf(),
            final(self).initialized == old(self).initialized,
            final(self).classes == old(self).classes,
            !old(self).initialized ==> r == Err::<Handle, ComError>(ComError::NotInitialized)
                && *final(self) == *old(self),
            old(self).initialized && !old(self).valid_class_id(class_id) ==> r == Err::<
                Handle,
                ComError,
            >(ComError::Status(CLASS_E_CLASSNOTAVAILABLE)) && *final(self) == *old(self),
            old(self).initialized && old(self).valid_class_id(class_id) ==> {
                &&& r is Ok
                &&& r->Ok_0.obj == old(self).objects@.len() + 1
                &&& final(self).live_handle(r->Ok_0)
                &&& grows_by_one(old(self).objects@, final(self).objects@)
                &&& fresh_instance_of(
                    final(self).objects@.last(),
                    old(self).class_of(class_id).iids@,
                )
            },
    {
        if !self.initialized {
            return Err(ComError::NotInitialized);
        }
        if class_id == 0 || class_id > self.classes.len() as u64 {
            return Err(ComError::Status(CLASS_E_CLASSNOTAVAILABLE));
        }
        let idx: usize = (class_id - 1) as usize;
        let iids = copy_iids(&self.classes[idx].iids);
        let id: u64 = (self.objects.len() as u64) + 1;
        self.objects.push(
            ObjectInstance {
                ref_count: 1,
                destroyed: false,
                iids,
                attached_window: 0,
                surface_window: 0,
                factory_for: 0,
            },
        );
        Ok(Handle { obj: id })
    }

    /// Factory activation, first step: the process-wide lookup of the
    /// activation factory serving a class.
    ///
    /// A registered class whose factory the runtime does not serve is a
    /// known-incompatible activation path: the lookup is rejected with
    /// the class-not-available status rather than attempted.
    pub fn get_activation_factory(&mut self, class_id: u64) -> (r: Result<Handle, ComError>)
        requires
            old(self).wf(),
            old(self).objects@.len() < 0xFFFF_FFFF_FFFF_FFFF,
        ensures
            final(self).wf(),
            final(self).initialized == old(self).initialized,
            final(self).classes == old(self).classes,
            !old(self).initialized ==> r == Err::<Handle, ComError>(ComError::NotInitialized)
                && *final(self) == *old(self),
            old(self).initialized && !(old(self).valid_class_id(class_id) && old(self).class_of(
                class_id,
            ).factory_available) ==> r == Err::<Handle, ComError>(
                ComError::Status(CLASS_E_CLASSNOTAVAILABLE),
            ) && *final(self) == *old(self),
            old(self).initialized && old(self).valid_class_id(class_id) && old(self).class_of(
                class_id,
            ).factory_available ==> {
                &&& r is Ok
                &&& r->Ok_0.obj == old(self).objects@.len() + 1
                &&& final(self).live_handle(r->Ok_0)
                &&& grows_by_one(old(self).objects@, final(self).objects@)
                &&& fresh_factory_for(final(self).objects@.last(), class_id)
            },
    {
        if !self.initialized {
            return Err(ComError::NotInitialized);
        }
        if class_id == 0 || class_id > self.classes.len() as u64 {
            return Err(ComError::Status(CLASS_E_CLASSNOTAVAILABLE));
        }
        let idx: usize = (class_id - 1) as usize;
        if !self.classes[idx].factory_available {
            return Err(ComError::Status(CLASS_E_CLASSNOTAVAILABLE));
        }
        let mut iids: Vec<InterfaceId> = Vec::new();
        iids.push(iid_iunknown());
        iids.push(iid_iactivation_factory());
        let id: u64 = (self.objects.len() as u64) + 1;
        self.objects.push(
            ObjectInstance {
                ref_count: 1,
                destroyed: false,
                iids,
                attached_window: 0,
                surface_window: 0,
                factory_for: class_id,
            },
        );
        Ok(Handle { obj: id })
    }

    /// Factory activation, second step: asks a factory for a new instance
    /// of its class, given the two configuration slots (owner context and
    /// inner-aggregation object), both of which must be empty — the
    /// runtime does not aggregate.  On success the new instance holds
    /// exactly one reference.
    pub fn create_instance(&mut self, factory: &Handle, outer: &Handle) -> (r: Result<
        Handle,
        ComError,
    >)
        requires
            old(self).wf(),
            old(self).live_handle(*factory),
            old(self).objects@.len() < 0xFFFF_FFFF_FFFF_FFFF,
        ensures
            final(self).wf(),
            final(self).initialized == old(self).initialized,
            final(self).classes == old(self).classes,
            factory.obj == 0 ==> r == Err::<Handle, ComError>(ComError::NullHandle) && *final(self)
                == *old(self),
            factory.obj != 0 && old(self).object_of(factory.obj).factory_for == 0 ==> r == Err::<
                Handle,
                ComError,
            >(ComError::Status(E_NOINTERFACE)) && *final(self) == *old(self),
            factory.obj != 0 && old(self).object_of(factory.obj).factory_for != 0 && outer.obj != 0
                ==> r == Err::<Handle, ComError>(ComError::Status(CLASS_E_NOAGGREGATION))
                && *final(self) == *old(self),
            factory.obj != 0 && old(self).object_of(factory.obj).factory_for != 0 && outer.obj == 0
                ==> {
                &&& r is Ok
                &&& r->Ok_0.obj == old(self).objects@.len() + 1
                &&& final(self).live_handle(r->Ok_0)
                &&& grows_by_one(old(self).objects@, final(self).objects@)
                &&& fresh_instance_of(
                    final(self).objects@.last(),
                    old(self).class_of(old(self).object_of(factory.obj).factory_for).iids@,
                )
            },
    {
        if factory.obj == 0 {
            return Err(ComError::NullHandle);
        }
        let n_obj: usize = self.objects.len();
        proof {
            assert(1 <= factory.obj <= n_obj);
        }
        let fidx: usize = (factory.obj as usize) - 1;
        let class_id: u64 = self.objects[fidx].factory_for;
        if class_id == 0 {
            return Err(ComError::Status(E_NOINTERFACE));
        }
        if outer.obj != 0 {
            return Err(ComError::Status(CLASS_E_NOAGGREGATION));
        }
        let n_cls: usize = self.classes.len();
        proof {
            assert(1 <= class_id <= n_cls);
        }
        let cidx: usize = (class_id as usize) - 1;
        let iids = copy_iids(&self.classes[cidx].iids);
        let id: u64 = (self.objects.len() as u64) + 1;
        self.objects.push(
            ObjectInstance {
                ref_count: 1,
                destroyed: false,
                iids,
                attached_window: 0,
                surface_window: 0,
                factory_for: 0,
            },
        );
        Ok(Handle { obj: id })
    }

    /// The capability query on every foreign object: asks whether the
    /// instance behind `h` also implements `target`.
    ///
    /// On success the result is a new handle to the same instance with
    /// its own incremented reference, independent of `h`; an instance
    /// that does not implement `target` yields the no-such-interface
    /// status and never a handle, with the count untouched.  A null
    /// handle is a caller error detected before any dispatch.
    pub fn query_interface(&mut self, h: &Handle, target: &InterfaceId) -> (r: Result<
        Handle,
        ComError,
    >)
        requires
            old(self).wf(),
            old(self).live_handle(*h),
            h.obj != 0 ==> old(self).object_of(h.obj).ref_count < 0xFFFF_FFFFu32,
        ensures
            final(self).wf(),
            final(self).initialized == old(self).initialized,
            final(self).classes == old(self).classes,
            h.obj == 0 ==> r == Err::<Handle, ComError>(ComError::NullHandle) && *final(self)
                == *old(self),
            h.obj != 0 && !object_implements(old(self).object_of(h.obj), *target) ==> r == Err::<
                Handle,
                ComError,
            >(ComError::Status(E_NOINTERFACE)) && *final(self) == *old(self),
            h.obj != 0 && object_implements(old(self).object_of(h.obj), *target) ==> {
                &&& r == Ok::<Handle, ComError>(Handle { obj: h.obj })
                &&& final(self).objects@ =~= old(self).objects@.update(
                    h.obj - 1,
                    after_addref(old(self).object_of(h.obj)),
                )
                &&& final(self).live_handle(*h)
            },
    {
        if h.obj == 0 {
            return Err(ComError::NullHandle);
        }
        let n_obj: usize = self.objects.len();
        proof {
            assert(1 <= h.obj <= n_obj);
        }
        let idx: usize = (h.obj as usize) - 1;
        let mut implements: bool = false;
        let mut i: usize = 0;
        let n_iids: usize = self.objects[idx].iids.len();
        while i < n_iids
            invariant
                idx < self.objects@.len(),
                n_iids == self.objects@[idx as int].iids@.len(),
                i <= n_iids,
                implements == exists|j: int|
                    0 <= j < i && self.objects@[idx as int].iids@[j] == *target,
            decreases n_iids - i,
        {
            if self.objects[idx].iids[i] == *target {
                implements = true;
            }
            i = i + 1;
        }
        if !implements {
            return Err(ComError::Status(E_NOINTERFACE));
        }
        let o = &mut self.objects[idx];
        o.ref_count = o.ref_count + 1;
        Ok(Handle { obj: h.obj })
    }

    /// Duplicates a handle: a null handle stays null with nothing
    /// touched; otherwise the instance's count is incremented and a
    /// second owning handle to the same instance is returned.  The
    /// duplicate is never an alias without its own increment.
    pub fn clone_handle(&mut self, h: &Handle) -> (r: Handle)
        requires
            old(self).wf(),
            old(self).live_handle(*h),
            h.obj != 0 ==> old(self).object_of(h.obj).ref_count < 0xFFFF_FFFFu32,
        ensures
            final(self).wf(),
            final(self).initialized == old(self).initialized,
            final(self).classes == old(self).classes,
            r.obj == h.obj,
            h.obj == 0 ==> *final(self) == *old(self),
            h.obj != 0 ==> final(self).objects@ =~= old(self).objects@.update(
                h.obj - 1,
                after_addref(old(self).object_of(h.obj)),
            ),
            final(self).live_handle(r),
    {
        if h.obj == 0 {
            return Handle { obj: 0 };
        }
        let n_obj: usize = self.objects.len();
        proof {
            assert(1 <= h.obj <= n_obj);
        }
        let idx: usize = (h.obj as usize) - 1;
        let o = &mut self.objects[idx];
        o.ref_count = o.ref_count + 1;
        Handle { obj: h.obj }
    }

    /// Gives up the one reference a handle owns and nulls the handle, so
    /// releasing the same handle again is a no-op.  The count drops by
    /// exactly one, never below zero, and the host destroys the instance
    /// exactly when this was the last reference.
    pub fn release(&mut self, h: &mut Handle)
        requires
            old(self).wf(),
            old(self).live_handle(*old(h)),
        ensures
            final(self).wf(),
            final(self).initialized == old(self).initialized,
            final(self).classes == old(self).classes,
            final(h).obj == 0,
            old(h).obj == 0 ==> *final(self) == *old(self),
            old(h).obj != 0 ==> final(self).objects@ =~= old(self).objects@.update(
                old(h).obj - 1,
                after_release(old(self).object_of(old(h).obj)),
            ),
    {
        if h.obj == 0 {
            return;
        }
        let n_obj: usize = self.objects.len();
        proof {
            assert(1 <= h.obj <= n_obj);
        }
        let idx: usize = (h.obj as usize) - 1;
        let o = &mut self.objects[idx];
        o.ref_count = o.ref_count - 1;
        if o.ref_count == 0 {
            o.destroyed = true;
        }
        h.obj = 0;
    }
}

/// Law: duplicating a live handle and then independently releasing both
/// the duplicate and the original never double-destroys the instance.
/// The first release only undoes the duplicate's increment and destroys
/// nothing; after the second the count stands exactly one below where it
/// began, and the instance is destroyed precisely when the original
/// handle held the last reference — one destruction, never two.
pub proof fn lemma_clone_release_release(s: Seq<ObjectInstance>, i: int)
    requires
        0 <= i < s.len(),
        1 <= s[i].ref_count < 0xFFFF_FFFFu32,
        !s[i].destroyed,
    ensures
        ({
            let cloned = s.update(i, after_addref(s[i]));
            let first = cloned.update(i, after_release(cloned[i]));
            let second = first.update(i, after_release(first[i]));
            &&& first[i].ref_count == s[i].ref_count
            &&& !first[i].destroyed
            &&& second[i].ref_count == s[i].ref_count - 1
            &&& (second[i].destroyed <==> s[i].ref_count == 1)
        }),
{
}

} // verus!
