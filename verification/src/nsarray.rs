//! Array classes: immutable and mutable typed array views, and the
//! chunked, mutation-detecting enumeration protocol.
//!
//! An array view is typed by its element type; the kind relation decides
//! at compile time what may be inserted, and the store invariant keeps
//! every element of the underlying object conformant to the view's element
//! class.

use vstd::prelude::*;

use crate::base::Borrowed;
use crate::base::IsKindOf;
use crate::base::ObjCClass;
use crate::base::Ownership;
use crate::base::Ptr;
use crate::base::RawClassPtr;
use crate::base::RawObjPtr;
use crate::base::Retained;
use crate::base::Type;
use crate::foundation::NSObjectInterface;
use crate::foundation::NSObjectProtocol;
use crate::runtime::class_descends;
use crate::runtime::lemma_descends_trans;
use crate::runtime::ObjValue;
use crate::runtime::Runtime;
use crate::runtime::TypeKind;
use crate::runtime::CLS_NSARRAY;
use crate::runtime::CLS_NSMUTABLEARRAY;
use crate::runtime::CLS_NSOBJECT;

verus! {

/// Types of array class: a typed view of a native array object.
pub trait NSArrayInterface: NSObjectInterface {
    /// The element type of the view.
    type Item: Type;
}

/// Types of mutable array class, whose instances can grow in place.
pub trait NSMutableArrayInterface: NSArrayInterface {

}

/// An immutable array object, typed over its element type.
pub struct NSArray<T: Type> {
    item: core::marker::PhantomData<T>,
}

impl<T: Type> Type for NSArray<T> {
    open spec fn type_class() -> u32 {
        CLS_NSARRAY
    }

    fn type_tag() -> u32 {
        CLS_NSARRAY
    }

    fn kind() -> TypeKind {
        TypeKind::ObjC
    }
}

impl<T: Type> ObjCClass for NSArray<T> {
    fn class() -> RawClassPtr {
        RawClassPtr::make(CLS_NSARRAY)
    }
}

impl<T: Type> NSObjectProtocol for NSArray<T> {

}

impl<T: Type> NSObjectInterface for NSArray<T> {
    open spec fn fresh_post(rt: Runtime, id: int) -> bool {
        rt.value_of(id) is Arr && rt.elems_of(id) == Seq::<usize>::empty() && rt.vcls_of(id)
            == T::type_class()
    }

    fn new(rt: &mut Runtime) -> (p: Ptr<Self, Retained>) {
        let elems: Vec<usize> = Vec::new();
        let id = rt.allocate(CLS_NSARRAY, CLS_NSOBJECT, T::type_tag(), ObjValue::Arr(elems));
        Ptr::from_raw_unchecked(RawObjPtr::make(id))
    }
}

impl<T: Type> NSArrayInterface for NSArray<T> {
    type Item = T;
}

impl<T: Type> IsKindOf<crate::foundation::NSObject> for NSArray<T> {
    proof fn declared_descends() {
        assert(class_descends(CLS_NSOBJECT, CLS_NSOBJECT));
        assert(class_descends(CLS_NSARRAY, CLS_NSOBJECT));
    }
}

/// A mutable array object, typed over its element type.
pub struct NSMutableArray<T: Type> {
    item: core::marker::PhantomData<T>,
}

impl<T: Type> Type for NSMutableArray<T> {
    open spec fn type_class() -> u32 {
        CLS_NSMUTABLEARRAY
    }

    fn type_tag() -> u32 {
        CLS_NSMUTABLEARRAY
    }

    fn kind() -> TypeKind {
        TypeKind::ObjC
    }
}

impl<T: Type> ObjCClass for NSMutableArray<T> {
    fn class() -> RawClassPtr {
        RawClassPtr::make(CLS_NSMUTABLEARRAY)
    }
}

impl<T: Type> NSObjectProtocol for NSMutableArray<T> {

}

impl<T: Type> NSObjectInterface for NSMutableArray<T> {
    open spec fn fresh_post(rt: Runtime, id: int) -> bool {
        rt.value_of(id) is Arr && rt.elems_of(id) == Seq::<usize>::empty() && rt.vcls_of(id)
            == T::type_class()
    }

    fn new(rt: &mut Runtime) -> (p: Ptr<Self, Retained>) {
        let elems: Vec<usize> = Vec::new();
        let id = rt.allocate(
            CLS_NSMUTABLEARRAY,
            CLS_NSOBJECT,
            T::type_tag(),
            ObjValue::Arr(elems),
        );
        Ptr::from_raw_unchecked(RawObjPtr::make(id))
    }
}

impl<T: Type> NSArrayInterface for NSMutableArray<T> {
    type Item = T;
}

impl<T: Type> NSMutableArrayInterface for NSMutableArray<T> {

}

impl<T: Type> IsKindOf<crate::foundation::NSObject> for NSMutableArray<T> {
    proof fn declared_descends() {
        assert(class_descends(CLS_NSOBJECT, CLS_NSOBJECT));
        assert(class_descends(CLS_NSARRAY, CLS_NSOBJECT));
        assert(class_descends(CLS_NSMUTABLEARRAY, CLS_NSOBJECT));
    }
}

impl<T: Type> IsKindOf<NSArray<T>> for NSMutableArray<T> {
    proof fn declared_descends() {
        assert(class_descends(CLS_NSARRAY, CLS_NSARRAY));
        assert(class_descends(CLS_NSMUTABLEARRAY, CLS_NSARRAY));
    }
}

impl<T: NSArrayInterface, O: Ownership> Ptr<T, O> {
    /// The wrapper views a real array object whose element bound is the
    /// view's element class.
    pub open spec fn array_wf(self, rt: Runtime) -> bool {
        &&& self.wf(rt)
        &&& rt.value_of(self.id()) is Arr
        &&& rt.vcls_of(self.id()) == <T as NSArrayInterface>::Item::type_class()
    }

    /// How many elements the array holds, by asking the native object.
    pub fn count(&self, rt: &Runtime) -> (n: usize)
        requires
            rt.inv(),
            self.array_wf(*rt),
        ensures
            n == rt.elems_of(self.id()).len(),
    {
        rt.arr_len(self.as_raw().index())
    }

    /// Whether the array holds nothing.
    pub fn is_empty(&self, rt: &Runtime) -> (r: bool)
        requires
            rt.inv(),
            self.array_wf(*rt),
        ensures
            r == (rt.elems_of(self.id()).len() == 0),
    {
        self.count(rt) == 0
    }

    /// The element at `index`, retained into an independently owned
    /// wrapper; the array keeps its own reference. Indexing out of bounds
    /// is a fatal native condition and is excluded outright.
    pub fn object_at(&self, rt: &mut Runtime, index: usize) -> (p: Ptr<
        <T as NSArrayInterface>::Item,
        Retained,
    >)
        requires
            old(rt).inv(),
            self.array_wf(*old(rt)),
            index < old(rt).elems_of(self.id()).len(),
            old(rt).rc(old(rt).elems_of(self.id())[index as int] as int) < u64::MAX,
        ensures
            final(rt).inv(),
            p.id() == old(rt).elems_of(self.id())[index as int],
            p.wf(*final(rt)),
            final(rt).same_except(*old(rt), p.id()),
            final(rt).only_rc_changed(*old(rt), p.id()),
            final(rt).rc(p.id()) == old(rt).rc(p.id()) + 1,
            final(rt).elems_of(self.id()) == old(rt).elems_of(self.id()),
    {
        let e = rt.arr_get(self.as_raw().index(), index);
        proof {
            assert(rt.entry_inv(self.id()));
        }
        let borrowed: Ptr<<T as NSArrayInterface>::Item, Borrowed> = Ptr::from_raw_unchecked(
            RawObjPtr::make(e),
        );
        let p = borrowed.retain(rt);
        proof {
            if p.id() != self.id() {
                assert(rt.entry_eq(*old(rt), self.id()));
            }
        }
        p
    }

    /// The first element, if any, retained into an owned wrapper.
    pub fn first(&self, rt: &mut Runtime) -> (r: Option<Ptr<<T as NSArrayInterface>::Item, Retained>>)
        requires
            old(rt).inv(),
            self.array_wf(*old(rt)),
            old(rt).elems_of(self.id()).len() > 0 ==> old(rt).rc(
                old(rt).elems_of(self.id())[0] as int,
            ) < u64::MAX,
        ensures
            final(rt).inv(),
            old(rt).elems_of(self.id()).len() == 0 ==> r is None && *final(rt) == *old(rt),
            old(rt).elems_of(self.id()).len() > 0 ==> (r matches Some(p) && p.id() == old(
                rt,
            ).elems_of(self.id())[0] && p.wf(*final(rt)) && final(rt).same_except(*old(rt), p.id())
                && final(rt).only_rc_changed(*old(rt), p.id()) && final(rt).rc(p.id()) == old(
                rt,
            ).rc(p.id()) + 1),
    {
        let n = self.count(rt);
        if n == 0 {
            None
        } else {
            Some(self.object_at(rt, 0))
        }
    }

    /// The last element, if any, retained into an owned wrapper.
    pub fn last(&self, rt: &mut Runtime) -> (r: Option<Ptr<<T as NSArrayInterface>::Item, Retained>>)
        requires
            old(rt).inv(),
            self.array_wf(*old(rt)),
            old(rt).elems_of(self.id()).len() > 0 ==> old(rt).rc(
                old(rt).elems_of(self.id()).last() as int,
            ) < u64::MAX,
        ensures
            final(rt).inv(),
            old(rt).elems_of(self.id()).len() == 0 ==> r is None && *final(rt) == *old(rt),
            old(rt).elems_of(self.id()).len() > 0 ==> (r matches Some(p) && p.id() == old(
                rt,
            ).elems_of(self.id()).last() && p.wf(*final(rt)) && final(rt).same_except(
                *old(rt),
                p.id(),
            ) && final(rt).only_rc_changed(*old(rt), p.id()) && final(rt).rc(p.id()) == old(rt).rc(
                p.id(),
            ) + 1),
    {
        let n = self.count(rt);
        if n == 0 {
            None
        } else {
            Some(self.object_at(rt, n - 1))
        }
    }

    /// A new, independent array holding this array's elements and `object`
    /// at the end. Native arrays are immutable once built; adding really
    /// builds a fresh one, and this array is untouched.
    pub fn adding_object<X, XO>(&self, rt: &mut Runtime, object: &Ptr<X, XO>) -> (p: Ptr<
        NSArray<<T as NSArrayInterface>::Item>,
        Retained,
    >) where X: IsKindOf<<T as NSArrayInterface>::Item>, XO: Ownership
        requires
            old(rt).inv(),
            self.array_wf(*old(rt)),
            object.wf(*old(rt)),
        ensures
            final(rt).inv(),
            final(rt).grown(*old(rt)),
            p.id() == old(rt).n_objects(),
            final(rt).rc(p.id()) == 1,
            p.array_wf(*final(rt)),
            final(rt).elems_of(p.id()) == old(rt).elems_of(self.id()).push(
                object.id() as usize,
            ),
            final(rt).elems_of(self.id()) == old(rt).elems_of(self.id()),
    {
        proof {
            assert(rt.entry_inv(self.id()));
            X::declared_descends();
            lemma_descends_trans(
                rt.class_of(object.id()),
                X::type_class(),
                <T as NSArrayInterface>::Item::type_class(),
            );
        }
        let mut elems = rt.arr_elems_copy(self.as_raw().index());
        elems.push(object.as_raw().index());
        let id = rt.allocate(
            CLS_NSARRAY,
            CLS_NSOBJECT,
            <T as NSArrayInterface>::Item::type_tag(),
            ObjValue::Arr(elems),
        );
        proof {
            assert(rt.entry_eq(*old(rt), self.id()));
        }
        Ptr::from_raw_unchecked(RawObjPtr::make(id))
    }
}

impl<T: NSMutableArrayInterface, O: Ownership> Ptr<T, O> {
    /// Append `obj` to the array in place. The array keeps a reference of
    /// its own, and the structural change bumps the mutation counter that
    /// enumeration watches.
    pub fn add_object<X, XO>(&self, rt: &mut Runtime, obj: &Ptr<X, XO>) where
        X: IsKindOf<<T as NSArrayInterface>::Item>,
        XO: Ownership,

        requires
            old(rt).inv(),
            self.array_wf(*old(rt)),
            obj.wf(*old(rt)),
            old(rt).muts_of(self.id()) < u64::MAX,
        ensures
            final(rt).inv(),
            final(rt).same_except(*old(rt), self.id()),
            final(rt).only_contents_changed(*old(rt), self.id()),
            final(rt).elems_of(self.id()) == old(rt).elems_of(self.id()).push(obj.id() as usize),
            final(rt).muts_of(self.id()) == old(rt).muts_of(self.id()) + 1,
            self.array_wf(*final(rt)),
    {
        proof {
            X::declared_descends();
            lemma_descends_trans(
                rt.class_of(obj.id()),
                X::type_class(),
                <T as NSArrayInterface>::Item::type_class(),
            );
        }
        rt.arr_push(self.as_raw().index(), obj.as_raw().index());
    }
}

} // verus!
