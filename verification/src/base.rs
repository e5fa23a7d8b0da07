//! The ownership-parameterized pointer wrapper and the traits around it.
//!
//! A [`Ptr<T, O>`] wraps the identity of one modelled object. `T` names the
//! foreign type the pointer is statically known to be, `O` the ownership
//! policy: [`Retained`] wrappers are accountable for exactly one
//! reference-count increment and give it back on release; [`Static`] and
//! [`Borrowed`] wrappers never release. The policy is a compile-time type,
//! so a release is either the one native call or nothing, with no branch at
//! run time.

use vstd::prelude::*;

use crate::runtime::class_descends;
use crate::runtime::class_kind;
use crate::runtime::lemma_descends_same_kind;
use crate::runtime::lemma_descends_trans;
use crate::runtime::Runtime;
use crate::runtime::TypeKind;

verus! {

/// A non-null handle to a foreign object. Carries no ownership; copying it
/// does not affect any reference count.
#[derive(Clone, Copy, PartialEq, Eq, Structural, Debug)]
pub struct RawObjPtr {
    pub(crate) id: usize,
}

impl RawObjPtr {
    /// The identity of the object this handle names.
    pub closed spec fn id(self) -> int {
        self.id as int
    }

    /// Wrap an identity the store handed out.
    pub(crate) fn make(id: usize) -> (r: RawObjPtr)
        ensures
            r.id() == id as int,
    {
        RawObjPtr { id }
    }

    /// The identity as a table index; reading it transfers nothing.
    pub fn index(self) -> (i: usize)
        ensures
            i as int == self.id(),
    {
        self.id
    }
}

/// A non-null handle to a foreign class object.
#[derive(Clone, Copy, PartialEq, Eq, Structural, Debug)]
pub struct RawClassPtr {
    pub(crate) tag: u32,
}

impl RawClassPtr {
    /// The class tag this handle names.
    pub closed spec fn tag(self) -> u32 {
        self.tag
    }

    /// Wrap a class tag.
    pub(crate) fn make(tag: u32) -> (r: RawClassPtr)
        ensures
            r.tag() == tag,
    {
        RawClassPtr { tag }
    }

    /// The class tag as a table value.
    pub(crate) fn tag_value(self) -> (t: u32)
        ensures
            t == self.tag(),
    {
        self.tag
    }
}

/// A raw handle's identity is a table index: never negative, never past
/// the machine's addressing range.
pub broadcast proof fn lemma_raw_id_bounds(p: RawObjPtr)
    ensures
        0 <= #[trigger] p.id() <= usize::MAX,
{
}

/// Every bindable foreign type declares the class tag that stands for it,
/// which in turn fixes the refcounting ABI that governs it.
pub trait Type: Sized {
    /// The class tag instances of this type conform to.
    spec fn type_class() -> u32;

    /// The class tag, as a value code can pass around.
    fn type_tag() -> (t: u32)
        ensures
            t == Self::type_class(),
    ;

    /// The refcounting ABI governing this type, derived from its class.
    fn kind() -> (k: TypeKind)
        ensures
            k == class_kind(Self::type_class()),
    ;
}

/// A bindable type backed by an Objective-C class object, which can be
/// fetched to introspect or instantiate.
pub trait ObjCClass: Type {
    /// The class object for this type.
    fn class() -> (c: RawClassPtr)
        ensures
            c.tag() == Self::type_class(),
    ;
}

/// A declared is-a fact: a wrapper typed `Self` may stand wherever a
/// wrapper typed `Base` is expected. Each declaration carries the proof
/// that the modelled hierarchy really contains the relation, so a
/// conversion can never forge a class.
pub trait IsKindOf<Base: Type>: Type {
    /// The declared relation holds in the modelled class hierarchy.
    proof fn declared_descends()
        ensures
            class_descends(Self::type_class(), Base::type_class()),
    ;
}

impl<T: Type> IsKindOf<T> for T {
    proof fn declared_descends() {
    }
}

/// An ownership policy: what happens to the wrapped object's reference
/// count when the wrapper is given up.
pub trait Ownership: Sized {
    /// Whether giving up a wrapper under this policy performs a release.
    spec fn releases() -> bool;

    /// Give up one wrapper: release under [`Retained`], do nothing under
    /// [`Static`] and [`Borrowed`].
    fn on_drop(rt: &mut Runtime, raw: RawObjPtr, kind: TypeKind)
        requires
            old(rt).inv(),
            old(rt).contains(raw.id()),
            kind == class_kind(old(rt).class_of(raw.id())),
            Self::releases() ==> old(rt).rc(raw.id()) >= 1,
        ensures
            final(rt).inv(),
            Self::releases() ==> final(rt).same_except(*old(rt), raw.id())
                && final(rt).only_rc_changed(*old(rt), raw.id())
                && final(rt).rc(raw.id()) == old(rt).rc(raw.id()) - 1,
            !Self::releases() ==> *final(rt) == *old(rt),
    ;
}

/// The policy of a wrapper that owns exactly one reference-count
/// increment and gives it back exactly once.
pub struct Retained;

/// The policy of a wrapper around an immortal object: it never releases.
pub struct Static;

/// The policy of a wrapper valid only for a caller-bounded scope: it never
/// releases, and a durable wrapper is obtained by retaining.
pub struct Borrowed;

impl Ownership for Retained {
    open spec fn releases() -> bool {
        true
    }

    fn on_drop(rt: &mut Runtime, raw: RawObjPtr, kind: TypeKind) {
        match kind {
            TypeKind::ObjC => objc_release(rt, raw),
            TypeKind::CF => cf_release(rt, raw),
        }
    }
}

impl Ownership for Static {
    open spec fn releases() -> bool {
        false
    }

    fn on_drop(_rt: &mut Runtime, _raw: RawObjPtr, _kind: TypeKind) {
    }
}

impl Ownership for Borrowed {
    open spec fn releases() -> bool {
        false
    }

    fn on_drop(_rt: &mut Runtime, _raw: RawObjPtr, _kind: TypeKind) {
    }
}

/// Policies under which a wrapper is accountable to the store; a static
/// wrapper is not.
pub trait NonStatic: Ownership {

}

impl NonStatic for Retained {

}

impl NonStatic for Borrowed {

}

/// The Objective-C runtime's retain: one increment on an ObjC-kind object.
pub fn objc_retain(rt: &mut Runtime, raw: RawObjPtr)
    requires
        old(rt).inv(),
        old(rt).contains(raw.id()),
        class_kind(old(rt).class_of(raw.id())) == TypeKind::ObjC,
        old(rt).rc(raw.id()) < u64::MAX,
    ensures
        final(rt).inv(),
        final(rt).same_except(*old(rt), raw.id()),
        final(rt).only_rc_changed(*old(rt), raw.id()),
        final(rt).rc(raw.id()) == old(rt).rc(raw.id()) + 1,
{
    rt.retain_id(raw.id);
}

/// The Objective-C runtime's release: one decrement on an ObjC-kind object.
pub fn objc_release(rt: &mut Runtime, raw: RawObjPtr)
    requires
        old(rt).inv(),
        old(rt).contains(raw.id()),
        class_kind(old(rt).class_of(raw.id())) == TypeKind::ObjC,
        old(rt).rc(raw.id()) >= 1,
    ensures
        final(rt).inv(),
        final(rt).same_except(*old(rt), raw.id()),
        final(rt).only_rc_changed(*old(rt), raw.id()),
        final(rt).rc(raw.id()) == old(rt).rc(raw.id()) - 1,
{
    rt.release_id(raw.id);
}

/// Core Foundation's CFRetain: one increment on a CF-kind object.
pub fn cf_retain(rt: &mut Runtime, raw: RawObjPtr)
    requires
        old(rt).inv(),
        old(rt).contains(raw.id()),
        class_kind(old(rt).class_of(raw.id())) == TypeKind::CF,
        old(rt).rc(raw.id()) < u64::MAX,
    ensures
        final(rt).inv(),
        final(rt).same_except(*old(rt), raw.id()),
        final(rt).only_rc_changed(*old(rt), raw.id()),
        final(rt).rc(raw.id()) == old(rt).rc(raw.id()) + 1,
{
    rt.retain_id(raw.id);
}

/// Core Foundation's CFRelease: one decrement on a CF-kind object.
pub fn cf_release(rt: &mut Runtime, raw: RawObjPtr)
    requires
        old(rt).inv(),
        old(rt).contains(raw.id()),
        class_kind(old(rt).class_of(raw.id())) == TypeKind::CF,
        old(rt).rc(raw.id()) >= 1,
    ensures
        final(rt).inv(),
        final(rt).same_except(*old(rt), raw.id()),
        final(rt).only_rc_changed(*old(rt), raw.id()),
        final(rt).rc(raw.id()) == old(rt).rc(raw.id()) - 1,
{
    rt.release_id(raw.id);
}

/// The ownership-parameterized pointer wrapper: the identity of one
/// modelled object, typed by the foreign type `T` and the ownership policy
/// `O`.
pub struct Ptr<T: Type, O: Ownership = Retained> {
    raw: RawObjPtr,
    t: core::marker::PhantomData<T>,
    o: core::marker::PhantomData<O>,
}

impl<T: Type, O: Ownership> Ptr<T, O> {
    /// The identity of the wrapped object.
    pub closed spec fn id(self) -> int {
        self.raw.id()
    }

    /// A wrapper's identity is a table index: never negative, never past
    /// the machine's addressing range.
    pub broadcast proof fn lemma_id_bounds(self)
        ensures
            0 <= #[trigger] self.id() <= usize::MAX,
    {
    }

    /// The wrapper is well formed in `rt`: it names an allocated object
    /// whose class conforms to the wrapper's static type.
    pub open spec fn wf(self, rt: Runtime) -> bool {
        &&& rt.contains(self.id())
        &&& class_descends(rt.class_of(self.id()), T::type_class())
    }

    /// Wrap a raw handle without any check. The caller is answerable for
    /// the class of the object and, under [`Retained`], for owning one
    /// increment.
    pub(crate) fn from_raw_unchecked(raw: RawObjPtr) -> (p: Ptr<T, O>)
        ensures
            p.id() == raw.id(),
    {
        Ptr { raw, t: core::marker::PhantomData, o: core::marker::PhantomData }
    }

    /// Expose the wrapped handle without transferring ownership.
    pub fn as_raw(&self) -> (r: RawObjPtr)
        ensures
            r.id() == self.id(),
    {
        self.raw
    }

    /// Retain the object through the ABI selected by `T`, producing a new,
    /// independently owned wrapper: exactly one increment.
    pub fn retain(&self, rt: &mut Runtime) -> (p: Ptr<T, Retained>)
        requires
            old(rt).inv(),
            self.wf(*old(rt)),
            old(rt).rc(self.id()) < u64::MAX,
        ensures
            final(rt).inv(),
            final(rt).same_except(*old(rt), self.id()),
            final(rt).only_rc_changed(*old(rt), self.id()),
            final(rt).rc(self.id()) == old(rt).rc(self.id()) + 1,
            p.id() == self.id(),
            p.wf(*final(rt)),
    {
        proof {
            lemma_descends_same_kind(rt.class_of(self.id()), T::type_class());
        }
        match T::kind() {
            TypeKind::ObjC => objc_retain(rt, self.raw),
            TypeKind::CF => cf_retain(rt, self.raw),
        }
        Ptr::from_raw_unchecked(self.raw)
    }

    /// Give the wrapper up. A [`Retained`] wrapper performs exactly one
    /// release through the ABI selected by `T`; a [`Static`] or
    /// [`Borrowed`] wrapper leaves the store untouched.
    pub fn release(self, rt: &mut Runtime)
        requires
            old(rt).inv(),
            self.wf(*old(rt)),
            O::releases() ==> old(rt).rc(self.id()) >= 1,
        ensures
            final(rt).inv(),
            O::releases() ==> final(rt).same_except(*old(rt), self.id())
                && final(rt).only_rc_changed(*old(rt), self.id())
                && final(rt).rc(self.id()) == old(rt).rc(self.id()) - 1,
            !O::releases() ==> *final(rt) == *old(rt),
    {
        proof {
            lemma_descends_same_kind(rt.class_of(self.id()), T::type_class());
        }
        let k = T::kind();
        O::on_drop(rt, self.raw, k)
    }

    /// Reinterpret the wrapper at an ancestor type, using a declared is-a
    /// fact; the object and the ownership are untouched.
    pub fn upcast<Base: Type>(self, rt: &Runtime) -> (p: Ptr<Base, O>) where T: IsKindOf<Base>
        requires
            self.wf(*rt),
        ensures
            p.id() == self.id(),
            p.wf(*rt),
    {
        proof {
            T::declared_descends();
            lemma_descends_trans(rt.class_of(self.id()), T::type_class(), Base::type_class());
        }
        Ptr::from_raw_unchecked(self.raw)
    }
}

impl RawObjPtr {
    /// Retain the object behind a raw handle into a typed, independently
    /// owned wrapper. The caller is answerable for the handle really
    /// naming an instance of `T`; the requirements carry that assertion.
    pub fn retain<T: Type>(&self, rt: &mut Runtime) -> (p: Ptr<T, Retained>)
        requires
            old(rt).inv(),
            old(rt).contains(self.id()),
            class_descends(old(rt).class_of(self.id()), T::type_class()),
            old(rt).rc(self.id()) < u64::MAX,
        ensures
            final(rt).inv(),
            final(rt).same_except(*old(rt), self.id()),
            final(rt).only_rc_changed(*old(rt), self.id()),
            final(rt).rc(self.id()) == old(rt).rc(self.id()) + 1,
            p.id() == self.id(),
            p.wf(*final(rt)),
    {
        let b: Ptr<T, Borrowed> = Ptr::from_raw_unchecked(*self);
        b.retain(rt)
    }
}

/// Anything that can hand out its raw handle without giving up ownership.
pub trait AsRaw {
    /// The identity of the object behind `self`.
    spec fn spec_raw(&self) -> int;

    /// The raw handle; the caller must not release through it.
    fn as_raw_ptr(&self) -> (r: RawObjPtr)
        ensures
            r.id() == self.spec_raw(),
    ;
}

impl<T: Type, O: Ownership> AsRaw for Ptr<T, O> {
    open spec fn spec_raw(&self) -> int {
        self.id()
    }

    fn as_raw_ptr(&self) -> (r: RawObjPtr)
        ensures
            r.id() == self.spec_raw(),
    {
        self.as_raw()
    }
}

/// Run `f` inside an autorelease-pool scope: the pool is entered before
/// `f` and left again on the way out, so the pool stack is balanced
/// whatever `f` computes.
pub fn autorelease_pool<Ret, F: FnOnce() -> Ret>(rt: &mut Runtime, f: F) -> (r: Ret)
    requires
        old(rt).inv(),
        old(rt).pool_depth() < usize::MAX,
        f.requires(()),
    ensures
        final(rt).inv(),
        final(rt).objects_unchanged(*old(rt)),
        final(rt).pool_depth() == old(rt).pool_depth(),
        f.ensures((), r),
{
    rt.pool_push();
    let ghost mid = *rt;
    let r = f();
    rt.pool_pop();
    proof {
        assert forall|j: int| 0 <= j < old(rt).n_objects() implies rt.entry_eq(*old(rt), j) by {
            assert(mid.entry_eq(*old(rt), j));
            assert(rt.entry_eq(mid, j));
        }
    }
    r
}

} // verus!
