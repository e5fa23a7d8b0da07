//! Untyped pointer shells around the two refcounting ABIs.
//!
//! Where [`crate::base::Ptr`] carries the foreign type and the ownership
//! policy in its type, the shells here carry only the ownership: an owned
//! handle releases once, a static handle never, a borrowed handle never
//! and must be retained to outlive its scope. They are what glue layers
//! pass around before a value is given its typed wrapper.

use vstd::prelude::*;

use crate::base::cf_release;
use crate::base::cf_retain;
use crate::base::objc_release;
use crate::base::objc_retain;
use crate::base::RawClassPtr;
use crate::base::RawObjPtr;
use crate::runtime::class_kind;
use crate::runtime::class_name_string;
use crate::runtime::spec_class_name;
use crate::runtime::Runtime;
use crate::runtime::TypeKind;

verus! {

/// The opaque pointee of a raw object handle; never inspected, only
/// pointed at.
pub struct OpaqueObject;

/// The Objective-C boolean as it crosses the ABI: zero is false,
/// anything else is true.
#[derive(Clone, Copy, PartialEq, Eq, Structural)]
pub struct BOOL(pub i8);

impl BOOL {
    /// Encode a host boolean.
    pub fn from_bool(b: bool) -> (r: BOOL)
        ensures
            r.0 == if b {
                1int
            } else {
                0int
            },
    {
        if b {
            BOOL(1)
        } else {
            BOOL(0)
        }
    }

    /// Decode to a host boolean: anything but zero is true.
    pub fn as_bool(self) -> (r: bool)
        ensures
            r == (self.0 != 0),
    {
        self.0 != 0
    }
}

/// The Core Foundation boolean as it crosses the ABI.
#[derive(Clone, Copy, PartialEq, Eq, Structural)]
pub struct Boolean(pub u8);

impl Boolean {
    /// Encode a host boolean.
    pub fn from_bool(b: bool) -> (r: Boolean)
        ensures
            r.0 == if b {
                1int
            } else {
                0int
            },
    {
        if b {
            Boolean(1)
        } else {
            Boolean(0)
        }
    }

    /// Decode to a host boolean: anything but zero is true.
    pub fn as_bool(self) -> (r: bool)
        ensures
            r == (self.0 != 0),
    {
        self.0 != 0
    }
}

/// A raw object handle under its Objective-C name.
pub type RawObjCPtr = RawObjPtr;

/// A raw object handle as message-send glue names it.
pub type RawPtr = RawObjPtr;

/// A raw object handle as Core Foundation glue names it.
pub type RawRef = RawObjPtr;

/// A raw class handle under its Objective-C name.
pub type ObjCClassPtr = RawClassPtr;

/// A raw class handle as message-send glue names it.
pub type ClassPtr = RawClassPtr;

impl RawClassPtr {
    /// The name of the class this handle stands for.
    pub fn class_name(&self) -> (r: String)
        ensures
            r@ == spec_class_name(self.tag()),
    {
        class_name_string(self.tag_value())
    }
}

/// A possibly absent raw object handle, as calls that may answer nothing
/// hand it back.
#[derive(Clone, Copy, PartialEq, Eq, Structural)]
pub struct RawNullableObjCPtr(pub Option<RawObjPtr>);

impl RawNullableObjCPtr {
    /// The absent handle.
    pub fn empty() -> (r: RawNullableObjCPtr)
        ensures
            r.0 is None,
    {
        RawNullableObjCPtr(None)
    }

    /// The handle, if one is there.
    pub fn into_opt(self) -> (r: Option<RawObjPtr>)
        ensures
            r == self.0,
    {
        self.0
    }
}

/// A possibly absent raw class handle.
#[derive(Clone, Copy, PartialEq, Eq, Structural)]
pub struct NullableObjCClassPtr(pub Option<RawClassPtr>);

impl NullableObjCClassPtr {
    /// The absent handle.
    pub fn empty() -> (r: NullableObjCClassPtr)
        ensures
            r.0 is None,
    {
        NullableObjCClassPtr(None)
    }

    /// The handle, if one is there.
    pub fn into_opt(self) -> (r: Option<RawClassPtr>)
        ensures
            r == self.0,
    {
        self.0
    }
}

/// An untyped handle that owns one reference-count increment of an
/// Objective-C object and gives it back exactly once.
pub struct OwnedObjCPtr {
    raw: RawObjPtr,
}

/// The owned Objective-C shell as message-send glue names it.
pub type OwnedPtr = OwnedObjCPtr;

impl OwnedObjCPtr {
    /// The identity of the owned object.
    pub closed spec fn id(self) -> int {
        self.raw.id()
    }

    /// The handle names an allocated object governed by the Objective-C
    /// ABI.
    pub open spec fn wf(self, rt: Runtime) -> bool {
        &&& rt.contains(self.id())
        &&& class_kind(rt.class_of(self.id())) == TypeKind::ObjC
    }

    /// Wrap a handle the caller affirmatively owns one increment of.
    pub(crate) fn from_raw_unchecked(raw: RawObjPtr) -> (p: OwnedObjCPtr)
        ensures
            p.id() == raw.id(),
    {
        OwnedObjCPtr { raw }
    }

    /// Take ownership of a reference the caller does not yet hold, as
    /// accessor results are taken over: one retain, and the new handle is
    /// accountable for giving it back.
    pub fn retain_unowned(rt: &mut Runtime, raw: RawObjPtr) -> (p: OwnedObjCPtr)
        requires
            old(rt).inv(),
            old(rt).contains(raw.id()),
            class_kind(old(rt).class_of(raw.id())) == TypeKind::ObjC,
            old(rt).rc(raw.id()) < u64::MAX,
        ensures
            final(rt).inv(),
            final(rt).same_except(*old(rt), raw.id()),
            final(rt).only_rc_changed(*old(rt), raw.id()),
            final(rt).rc(raw.id()) == old(rt).rc(raw.id()) + 1,
            p.id() == raw.id(),
            p.wf(*final(rt)),
    {
        objc_retain(rt, raw);
        OwnedObjCPtr { raw }
    }

    /// Expose the handle without transferring ownership; the caller must
    /// not release through it.
    pub fn as_raw(&self) -> (r: RawObjPtr)
        ensures
            r.id() == self.id(),
    {
        self.raw
    }

    /// Retain into a second, independently owned handle: exactly one
    /// increment.
    pub fn retain(&self, rt: &mut Runtime) -> (p: OwnedObjCPtr)
        requires
            old(rt).inv(),
            self.wf(*old(rt)),
            old(rt).rc(self.id()) < u64::MAX,
        ensures
            final(rt).inv(),
            final(rt).same_except(*old(rt), self.id()),
            final(rt).only_rc_changed(*old(rt), self.id()),
            final(rt).rc(self.id()) == old(rt).rc(self.id()) + 1,
            p.id() == self.id(),
            p.wf(*final(rt)),
    {
        objc_retain(rt, self.raw);
        OwnedObjCPtr { raw: self.raw }
    }

    /// Give the owned increment back: exactly one release.
    pub fn release(self, rt: &mut Runtime)
        requires
            old(rt).inv(),
            self.wf(*old(rt)),
            old(rt).rc(self.id()) >= 1,
        ensures
            final(rt).inv(),
            final(rt).same_except(*old(rt), self.id()),
            final(rt).only_rc_changed(*old(rt), self.id()),
            final(rt).rc(self.id()) == old(rt).rc(self.id()) - 1,
    {
        objc_release(rt, self.raw);
    }
}

impl RawObjPtr {
    /// Affirm ownership of one increment of this handle, taking on the
    /// duty to release it exactly once.
    pub(crate) fn consider_owned(self) -> (p: OwnedObjCPtr)
        ensures
            p.id() == self.id(),
    {
        OwnedObjCPtr::from_raw_unchecked(self)
    }
}

/// An untyped handle that owns one reference-count increment of a Core
/// Foundation object and gives it back exactly once.
pub struct OwnedRef {
    raw: RawObjPtr,
}

impl OwnedRef {
    /// The identity of the owned object.
    pub closed spec fn id(self) -> int {
        self.raw.id()
    }

    /// The handle names an allocated object governed by the Core
    /// Foundation ABI.
    pub open spec fn wf(self, rt: Runtime) -> bool {
        &&& rt.contains(self.id())
        &&& class_kind(rt.class_of(self.id())) == TypeKind::CF
    }

    /// Wrap a handle the caller affirmatively owns one increment of.
    pub(crate) fn from_raw_unchecked(raw: RawObjPtr) -> (p: OwnedRef)
        ensures
            p.id() == raw.id(),
    {
        OwnedRef { raw }
    }

    /// Take ownership of a reference the caller does not yet hold: one
    /// retain, and the new handle is accountable for giving it back.
    pub fn retain_unowned(rt: &mut Runtime, raw: RawObjPtr) -> (p: OwnedRef)
        requires
            old(rt).inv(),
            old(rt).contains(raw.id()),
            class_kind(old(rt).class_of(raw.id())) == TypeKind::CF,
            old(rt).rc(raw.id()) < u64::MAX,
        ensures
            final(rt).inv(),
            final(rt).same_except(*old(rt), raw.id()),
            final(rt).only_rc_changed(*old(rt), raw.id()),
            final(rt).rc(raw.id()) == old(rt).rc(raw.id()) + 1,
            p.id() == raw.id(),
            p.wf(*final(rt)),
    {
        cf_retain(rt, raw);
        OwnedRef { raw }
    }

    /// Expose the handle without transferring ownership.
    pub fn as_raw_ref(&self) -> (r: RawObjPtr)
        ensures
            r.id() == self.id(),
    {
        self.raw
    }

    /// Retain into a second, independently owned handle.
    pub fn retain(&self, rt: &mut Runtime) -> (p: OwnedRef)
        requires
            old(rt).inv(),
            self.wf(*old(rt)),
            old(rt).rc(self.id()) < u64::MAX,
        ensures
            final(rt).inv(),
            final(rt).same_except(*old(rt), self.id()),
            final(rt).only_rc_changed(*old(rt), self.id()),
            final(rt).rc(self.id()) == old(rt).rc(self.id()) + 1,
            p.id() == self.id(),
            p.wf(*final(rt)),
    {
        cf_retain(rt, self.raw);
        OwnedRef { raw: self.raw }
    }

    /// Give the owned increment back: exactly one release.
    pub fn release(self, rt: &mut Runtime)
        requires
            old(rt).inv(),
            self.wf(*old(rt)),
            old(rt).rc(self.id()) >= 1,
        ensures
            final(rt).inv(),
            final(rt).same_except(*old(rt), self.id()),
            final(rt).only_rc_changed(*old(rt), self.id()),
            final(rt).rc(self.id()) == old(rt).rc(self.id()) - 1,
    {
        cf_release(rt, self.raw);
    }
}

/// An untyped handle to an immortal Objective-C object: copyable, never
/// released.
#[derive(Clone, Copy)]
pub struct StaticPtr {
    raw: RawObjPtr,
}

impl StaticPtr {
    /// The identity of the immortal object.
    pub closed spec fn id(self) -> int {
        self.raw.id()
    }

    /// Wrap a handle to a known-immortal object.
    pub(crate) fn from_static(raw: RawObjPtr) -> (p: StaticPtr)
        ensures
            p.id() == raw.id(),
    {
        StaticPtr { raw }
    }

    /// Expose the handle; nothing is owed on it.
    pub fn as_raw_ptr(&self) -> (r: RawObjPtr)
        ensures
            r.id() == self.id(),
    {
        self.raw
    }
}

/// An untyped handle to an immortal Core Foundation object.
#[derive(Clone, Copy)]
pub struct StaticRef {
    raw: RawObjPtr,
}

impl StaticRef {
    /// The identity of the immortal object.
    pub closed spec fn id(self) -> int {
        self.raw.id()
    }

    /// Wrap a handle to a known-immortal object.
    pub(crate) fn from_static(raw: RawObjPtr) -> (p: StaticRef)
        ensures
            p.id() == raw.id(),
    {
        StaticRef { raw }
    }

    /// Expose the handle; nothing is owed on it.
    pub fn as_raw_ref(&self) -> (r: RawObjPtr)
        ensures
            r.id() == self.id(),
    {
        self.raw
    }
}

/// An untyped Objective-C handle valid only for a caller-bounded scope:
/// never released, retained into an owned handle to outlive its scope.
pub struct BorrowedPtr {
    raw: RawObjPtr,
}

impl BorrowedPtr {
    /// The identity of the borrowed object.
    pub closed spec fn id(self) -> int {
        self.raw.id()
    }

    /// Wrap a handle whose validity window the caller controls.
    pub(crate) fn from_borrowed(raw: RawObjPtr) -> (p: BorrowedPtr)
        ensures
            p.id() == raw.id(),
    {
        BorrowedPtr { raw }
    }

}

/// An untyped Core Foundation handle valid only for a caller-bounded
/// scope.
pub struct BorrowedRef {
    raw: RawObjPtr,
}

impl BorrowedRef {
    /// The identity of the borrowed object.
    pub closed spec fn id(self) -> int {
        self.raw.id()
    }

    /// Wrap a handle whose validity window the caller controls.
    pub(crate) fn from_borrowed(raw: RawObjPtr) -> (p: BorrowedRef)
        ensures
            p.id() == raw.id(),
    {
        BorrowedRef { raw }
    }

}

/// Handles that can be retained into an independently owned handle.
pub trait Retain: Sized {
    /// The owned shell the retain produces.
    type Owned;

    /// The identity of the object behind `self`.
    spec fn retain_src(&self) -> int;

    /// The ABI governing the object behind `self`.
    spec fn retain_kind() -> TypeKind;

    /// The identity of the object behind an owned shell.
    spec fn owned_id(o: &Self::Owned) -> int;

    /// Retain: exactly one increment, and a new owned shell on the same
    /// object.
    fn retain(&self, rt: &mut Runtime) -> (o: Self::Owned)
        requires
            old(rt).inv(),
            old(rt).contains(self.retain_src()),
            class_kind(old(rt).class_of(self.retain_src())) == Self::retain_kind(),
            old(rt).rc(self.retain_src()) < u64::MAX,
        ensures
            final(rt).inv(),
            final(rt).same_except(*old(rt), self.retain_src()),
            final(rt).only_rc_changed(*old(rt), self.retain_src()),
            final(rt).rc(self.retain_src()) == old(rt).rc(self.retain_src()) + 1,
            Self::owned_id(&o) == self.retain_src(),
    ;
}

impl Retain for BorrowedPtr {
    type Owned = OwnedObjCPtr;

    open spec fn retain_src(&self) -> int {
        self.id()
    }

    open spec fn retain_kind() -> TypeKind {
        TypeKind::ObjC
    }

    open spec fn owned_id(o: &OwnedObjCPtr) -> int {
        o.id()
    }

    fn retain(&self, rt: &mut Runtime) -> (o: OwnedObjCPtr) {
        objc_retain(rt, self.raw);
        OwnedObjCPtr::from_raw_unchecked(self.raw)
    }
}

impl Retain for BorrowedRef {
    type Owned = OwnedRef;

    open spec fn retain_src(&self) -> int {
        self.id()
    }

    open spec fn retain_kind() -> TypeKind {
        TypeKind::CF
    }

    open spec fn owned_id(o: &OwnedRef) -> int {
        o.id()
    }

    fn retain(&self, rt: &mut Runtime) -> (o: OwnedRef) {
        cf_retain(rt, self.raw);
        OwnedRef::from_raw_unchecked(self.raw)
    }
}

/// Shells built by taking over an owned untyped handle, as generated
/// glue builds typed wrappers.
pub trait FromOwned: Sized {
    /// The identity of the object behind a built shell.
    spec fn built_id(s: &Self) -> int;

    /// Take the owned handle over without any check; the caller is
    /// answerable for the object's type.
    fn from_owned_ptr_unchecked(ptr: OwnedObjCPtr) -> (s: Self)
        ensures
            Self::built_id(&s) == ptr.id(),
    ;
}

impl FromOwned for OwnedObjCPtr {
    open spec fn built_id(s: &Self) -> int {
        s.id()
    }

    fn from_owned_ptr_unchecked(ptr: OwnedObjCPtr) -> (s: Self) {
        ptr
    }
}

} // verus!
