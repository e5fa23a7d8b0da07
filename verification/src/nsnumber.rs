//! Number objects: boxed booleans and integers with value equality.

use vstd::prelude::*;

use crate::base::IsKindOf;
use crate::base::ObjCClass;
use crate::base::Ownership;
use crate::base::Ptr;
use crate::base::RawClassPtr;
use crate::base::RawObjPtr;
use crate::base::Retained;
use crate::base::Type;
use crate::foundation::NSObjectInterface;
use crate::foundation::NSObjectProtocol;
use crate::runtime::class_descends;
use crate::runtime::ObjValue;
use crate::runtime::Runtime;
use crate::runtime::TypeKind;
use crate::runtime::CLS_NSNUMBER;
use crate::runtime::CLS_NSOBJECT;

verus! {

/// A number object.
pub struct NSNumber;

/// Types of number class, whose instances box a numeric value.
pub trait NSNumberInterface: NSObjectInterface {
    /// Box a boolean: true boxes one, false boxes zero.
    fn from_bool(rt: &mut Runtime, value: bool) -> (p: Ptr<Self, Retained>)
        requires
            old(rt).inv(),
        ensures
            final(rt).inv(),
            final(rt).grown(*old(rt)),
            p.id() == old(rt).n_objects(),
            final(rt).rc(p.id()) == 1,
            final(rt).class_of(p.id()) == Self::type_class(),
            final(rt).num_of(p.id()) == if value {
                1int
            } else {
                0int
            },
            final(rt).value_of(p.id()) is Int,
            p.wf(*final(rt)),
            final(rt).pool_depth() == old(rt).pool_depth(),
    ;

    /// Box a signed integer.
    fn from_isize(rt: &mut Runtime, value: isize) -> (p: Ptr<Self, Retained>)
        requires
            old(rt).inv(),
        ensures
            final(rt).inv(),
            final(rt).grown(*old(rt)),
            p.id() == old(rt).n_objects(),
            final(rt).rc(p.id()) == 1,
            final(rt).class_of(p.id()) == Self::type_class(),
            final(rt).num_of(p.id()) == value as int,
            final(rt).value_of(p.id()) is Int,
            p.wf(*final(rt)),
            final(rt).pool_depth() == old(rt).pool_depth(),
    ;

    /// Box an unsigned integer.
    fn from_usize(rt: &mut Runtime, value: usize) -> (p: Ptr<Self, Retained>)
        requires
            old(rt).inv(),
        ensures
            final(rt).inv(),
            final(rt).grown(*old(rt)),
            p.id() == old(rt).n_objects(),
            final(rt).rc(p.id()) == 1,
            final(rt).class_of(p.id()) == Self::type_class(),
            final(rt).num_of(p.id()) == value as int,
            final(rt).value_of(p.id()) is Int,
            p.wf(*final(rt)),
            final(rt).pool_depth() == old(rt).pool_depth(),
    ;
}

impl Type for NSNumber {
    open spec fn type_class() -> u32 {
        CLS_NSNUMBER
    }

    fn type_tag() -> u32 {
        CLS_NSNUMBER
    }

    fn kind() -> TypeKind {
        TypeKind::ObjC
    }
}

impl ObjCClass for NSNumber {
    fn class() -> RawClassPtr {
        RawClassPtr::make(CLS_NSNUMBER)
    }
}

impl NSObjectProtocol for NSNumber {

}

impl NSObjectInterface for NSNumber {
    open spec fn fresh_post(rt: Runtime, id: int) -> bool {
        rt.value_of(id) is Int && rt.num_of(id) == 0
    }

    fn new(rt: &mut Runtime) -> (p: Ptr<Self, Retained>) {
        let id = rt.allocate(CLS_NSNUMBER, CLS_NSOBJECT, CLS_NSOBJECT, ObjValue::Int(0));
        Ptr::from_raw_unchecked(RawObjPtr::make(id))
    }
}

impl NSNumberInterface for NSNumber {
    fn from_bool(rt: &mut Runtime, value: bool) -> (p: Ptr<Self, Retained>) {
        let boxed: i128 = if value {
            1
        } else {
            0
        };
        let id = rt.allocate(CLS_NSNUMBER, CLS_NSOBJECT, CLS_NSOBJECT, ObjValue::Int(boxed));
        Ptr::from_raw_unchecked(RawObjPtr::make(id))
    }

    fn from_isize(rt: &mut Runtime, value: isize) -> (p: Ptr<Self, Retained>) {
        let id = rt.allocate(
            CLS_NSNUMBER,
            CLS_NSOBJECT,
            CLS_NSOBJECT,
            ObjValue::Int(value as i128),
        );
        Ptr::from_raw_unchecked(RawObjPtr::make(id))
    }

    fn from_usize(rt: &mut Runtime, value: usize) -> (p: Ptr<Self, Retained>) {
        let id = rt.allocate(
            CLS_NSNUMBER,
            CLS_NSOBJECT,
            CLS_NSOBJECT,
            ObjValue::Int(value as i128),
        );
        Ptr::from_raw_unchecked(RawObjPtr::make(id))
    }
}

impl IsKindOf<crate::foundation::NSObject> for NSNumber {
    proof fn declared_descends() {
        assert(class_descends(CLS_NSOBJECT, CLS_NSOBJECT));
        assert(class_descends(CLS_NSNUMBER, CLS_NSOBJECT));
    }
}

impl<T: NSNumberInterface, O: Ownership> Ptr<T, O> {
    /// The boxed value read as a boolean: anything but zero is true.
    pub fn as_bool(&self, rt: &Runtime) -> (r: bool)
        requires
            rt.inv(),
            self.wf(*rt),
        ensures
            r == (rt.num_of(self.id()) != 0),
    {
        rt.num_value(self.as_raw().index()) != 0
    }

    /// The boxed value read as a signed integer; a value outside the
    /// signed range is a machine limit and is excluded.
    pub fn as_isize(&self, rt: &Runtime) -> (r: isize)
        requires
            rt.inv(),
            self.wf(*rt),
            isize::MIN <= rt.num_of(self.id()) <= isize::MAX,
        ensures
            r as int == rt.num_of(self.id()),
    {
        rt.num_value(self.as_raw().index()) as isize
    }

    /// The boxed value read as an unsigned integer; a value outside the
    /// unsigned range is a machine limit and is excluded.
    pub fn as_usize(&self, rt: &Runtime) -> (r: usize)
        requires
            rt.inv(),
            self.wf(*rt),
            0 <= rt.num_of(self.id()) <= usize::MAX,
        ensures
            r as int == rt.num_of(self.id()),
    {
        rt.num_value(self.as_raw().index()) as usize
    }
}

} // verus!
