//! The root object class, protocol-level operations, and the
//! value-or-error construction helper.

use vstd::prelude::*;

use crate::base::IsKindOf;
use crate::base::ObjCClass;
use crate::base::Ownership;
use crate::base::Ptr;
use crate::base::RawClassPtr;
use crate::base::RawObjPtr;
use crate::base::Retained;
use crate::base::Type;
use crate::runtime::class_descends;
use crate::runtime::ObjValue;
use crate::runtime::Runtime;
use crate::runtime::TypeKind;
use crate::runtime::CLS_NSERROR;
use crate::runtime::CLS_NSOBJECT;

verus! {

/// Types whose instances answer the root object protocol: identity,
/// equality, hashing and class membership.
pub trait NSObjectProtocol: Type {

}

/// Types whose class can be instantiated with a plain `new`.
pub trait NSObjectInterface: ObjCClass {
    /// What holds of a freshly created instance beyond the generic clauses
    /// of [`Self::new`]: the shape and content of its value.
    spec fn fresh_post(rt: Runtime, id: int) -> bool;

    /// Create a fresh instance. The caller owns the one reference-count
    /// increment the new object starts with.
    fn new(rt: &mut Runtime) -> (p: Ptr<Self, Retained>)
        requires
            old(rt).inv(),
        ensures
            final(rt).inv(),
            final(rt).grown(*old(rt)),
            p.id() == old(rt).n_objects(),
            final(rt).rc(p.id()) == 1,
            final(rt).class_of(p.id()) == Self::type_class(),
            final(rt).muts_of(p.id()) == 0,
            final(rt).pool_depth() == old(rt).pool_depth(),
            p.wf(*final(rt)),
            Self::fresh_post(*final(rt), p.id()),
    ;
}

impl<T: NSObjectProtocol, O: Ownership> Ptr<T, O> {
    /// Protocol-level equality, as `isEqual:` answers it: identity, or
    /// equal content within the same equality family. The comparand is
    /// always a real object; absence is modelled with `Option` above this
    /// layer, never passed through.
    pub fn is_equal<OtherT: NSObjectProtocol, OtherO: Ownership>(
        &self,
        rt: &Runtime,
        obj: &Ptr<OtherT, OtherO>,
    ) -> (r: bool)
        requires
            rt.inv(),
            self.wf(*rt),
            obj.wf(*rt),
        ensures
            r == rt.obj_eq(self.id(), obj.id()),
    {
        rt.ids_equal(self.as_raw().index(), obj.as_raw().index())
    }

    /// Run-time class membership, as `isKindOfClass:` answers it.
    pub fn is_kind_of(&self, rt: &Runtime, class: RawClassPtr) -> (r: bool)
        requires
            rt.inv(),
            self.wf(*rt),
        ensures
            r == class_descends(rt.class_of(self.id()), class.tag()),
    {
        let c = rt.class_tag(self.as_raw().index());
        crate::runtime::class_descends_exec(c, class.tag_value())
    }

    /// The protocol-level hash; objects that compare equal hash alike.
    pub fn hash(&self, rt: &Runtime) -> (h: usize)
        requires
            rt.inv(),
            self.wf(*rt),
        ensures
            h == rt.obj_hash(self.id()),
    {
        rt.hash_value(self.as_raw().index())
    }
}

/// The root class: no observable content, equality is identity.
pub struct NSObject;

impl Type for NSObject {
    open spec fn type_class() -> u32 {
        CLS_NSOBJECT
    }

    fn type_tag() -> u32 {
        CLS_NSOBJECT
    }

    fn kind() -> TypeKind {
        TypeKind::ObjC
    }
}

impl ObjCClass for NSObject {
    fn class() -> RawClassPtr {
        RawClassPtr::make(CLS_NSOBJECT)
    }
}

impl NSObjectProtocol for NSObject {

}

impl NSObjectInterface for NSObject {
    open spec fn fresh_post(rt: Runtime, id: int) -> bool {
        rt.value_of(id) is Plain
    }

    fn new(rt: &mut Runtime) -> (p: Ptr<Self, Retained>) {
        let id = rt.allocate(CLS_NSOBJECT, CLS_NSOBJECT, CLS_NSOBJECT, ObjValue::Plain);
        Ptr::from_raw_unchecked(RawObjPtr::make(id))
    }
}

/// An error object handed back through the conventional error
/// out-parameter.
pub struct NSError;

/// Marker for error-class types.
pub trait NSErrorInterface: NSObjectInterface {

}

impl Type for NSError {
    open spec fn type_class() -> u32 {
        CLS_NSERROR
    }

    fn type_tag() -> u32 {
        CLS_NSERROR
    }

    fn kind() -> TypeKind {
        TypeKind::ObjC
    }
}

impl ObjCClass for NSError {
    fn class() -> RawClassPtr {
        RawClassPtr::make(CLS_NSERROR)
    }
}

impl NSObjectProtocol for NSError {

}

impl NSObjectInterface for NSError {
    open spec fn fresh_post(rt: Runtime, id: int) -> bool {
        rt.value_of(id) is Plain
    }

    fn new(rt: &mut Runtime) -> (p: Ptr<Self, Retained>) {
        let id = rt.allocate(CLS_NSERROR, CLS_NSOBJECT, CLS_NSOBJECT, ObjValue::Plain);
        Ptr::from_raw_unchecked(RawObjPtr::make(id))
    }
}

impl NSErrorInterface for NSError {

}

impl IsKindOf<NSObject> for NSError {
    proof fn declared_descends() {
        assert(class_descends(CLS_NSOBJECT, CLS_NSOBJECT));
        assert(class_descends(CLS_NSERROR, CLS_NSOBJECT));
    }
}

/// Build the result of a paired value-or-error native call: the returned
/// pointer is owned, the error pointer is unowned. On success the owned
/// value is passed straight through; on failure the error is retained into
/// an owned wrapper, and an owned value handed back alongside the error is
/// released exactly once rather than leaked or surfaced. Both pointers
/// null is a broken contract and is excluded outright.
pub fn make_object_result<T: NSObjectInterface>(
    rt: &mut Runtime,
    value_ptr: Option<RawObjPtr>,
    raw_unowned_error: Option<RawObjPtr>,
) -> (r: Result<Ptr<T, Retained>, Ptr<NSError, Retained>>)
    requires
        old(rt).inv(),
        !(value_ptr is None && raw_unowned_error is None),
        value_ptr matches Some(p) ==> old(rt).contains(p.id()) && class_descends(
            old(rt).class_of(p.id()),
            T::type_class(),
        ) && old(rt).rc(p.id()) >= 1,
        raw_unowned_error matches Some(e) ==> old(rt).contains(e.id()) && class_descends(
            old(rt).class_of(e.id()),
            CLS_NSERROR,
        ) && old(rt).rc(e.id()) < u64::MAX,
        value_ptr matches Some(p) ==> (raw_unowned_error matches Some(e) ==> p.id() != e.id()),
    ensures
        final(rt).inv(),
        final(rt).n_objects() == old(rt).n_objects(),
        final(rt).pool_depth() == old(rt).pool_depth(),
        raw_unowned_error is None ==> *final(rt) == *old(rt) && (r matches Ok(v)
            && value_ptr matches Some(rp) && v.id() == rp.id() && v.wf(*final(rt))),
        raw_unowned_error matches Some(e) ==> (r matches Err(err) && err.id() == e.id()
            && err.wf(*final(rt)) && final(rt).rc(e.id()) == old(rt).rc(e.id()) + 1),
        raw_unowned_error matches Some(e) ==> (value_ptr is None ==> final(rt).same_except(
            *old(rt),
            e.id(),
        ) && final(rt).only_rc_changed(*old(rt), e.id())),
        raw_unowned_error matches Some(e) ==> (value_ptr matches Some(p) ==> final(rt).rc(p.id())
            == old(rt).rc(p.id()) - 1 && final(rt).only_rc_changed(*old(rt), p.id())
            && final(rt).only_rc_changed(*old(rt), e.id()) && (forall|j: int|
            0 <= j < old(rt).n_objects() && j != p.id() && j != e.id() ==> final(rt).entry_eq(
                *old(rt),
                j,
            ))),
{
    match (value_ptr, raw_unowned_error) {
        (Some(p), None) => Ok(Ptr::from_raw_unchecked(p)),
        (None, Some(e)) => {
            let c = rt.class_tag(e.index());
            proof {
                crate::runtime::lemma_descends_same_kind(c, CLS_NSERROR);
            }
            crate::base::objc_retain(rt, e);
            Err(Ptr::from_raw_unchecked(e))
        },
        (Some(p), Some(e)) => {
            let owned: Ptr<T, Retained> = Ptr::from_raw_unchecked(p);
            owned.release(rt);
            let ghost mid = *rt;
            proof {
                assert(rt.entry_eq(*old(rt), e.id()));
            }
            let c = rt.class_tag(e.index());
            proof {
                crate::runtime::lemma_descends_same_kind(c, CLS_NSERROR);
            }
            crate::base::objc_retain(rt, e);
            proof {
                assert(rt.entry_eq(mid, p.id()));
                assert(rt.only_rc_changed(*old(rt), p.id()));
                assert(rt.only_rc_changed(*old(rt), e.id()));
                assert forall|j: int|
                    0 <= j < old(rt).n_objects() && j != p.id() && j != e.id() implies rt.entry_eq(
                    *old(rt),
                    j,
                ) by {
                    assert(mid.entry_eq(*old(rt), j));
                    assert(rt.entry_eq(mid, j));
                }
            }
            Err(Ptr::from_raw_unchecked(e))
        },
        (None, None) => vstd::pervasive::unreached(),
    }
}

} // verus!
