//! Dictionary classes: immutable and mutable typed dictionary views.
//!
//! A dictionary view is typed by its key and value types; the kind
//! relation decides at compile time what may be used as a key or stored
//! as a value, and the store invariant keeps the underlying object's
//! entries conformant to the view's class bounds. Keys are matched by
//! protocol equality, as the native dictionary matches them.

use vstd::prelude::*;

use crate::base::IsKindOf;
use crate::base::ObjCClass;
use crate::base::Ownership;
use crate::base::Ptr;
use crate::base::RawClassPtr;
use crate::base::RawObjPtr;
use crate::base::Retained;
use crate::base::Type;
use crate::foundation::NSObjectInterface;
use crate::foundation::NSObjectProtocol;
use crate::runtime::class_descends;
use crate::runtime::lemma_descends_trans;
use crate::runtime::ObjValue;
use crate::runtime::Runtime;
use crate::runtime::TypeKind;
use crate::runtime::CLS_NSDICTIONARY;
use crate::runtime::CLS_NSMUTABLEDICTIONARY;
use crate::runtime::CLS_NSOBJECT;

verus! {

/// Types of dictionary class: a typed view of a native dictionary object.
pub trait NSDictionaryInterface: NSObjectInterface {
    /// The key type of the view.
    type Key: Type;

    /// The value type of the view.
    type Value: Type;
}

/// Types of mutable dictionary class, whose instances change in place.
pub trait NSMutableDictionaryInterface: NSDictionaryInterface {

}

/// An immutable dictionary object, typed over its key and value types.
pub struct NSDictionary<K: Type, V: Type> {
    key: core::marker::PhantomData<K>,
    value: core::marker::PhantomData<V>,
}

impl<K: Type, V: Type> Type for NSDictionary<K, V> {
    open spec fn type_class() -> u32 {
        CLS_NSDICTIONARY
    }

    fn type_tag() -> u32 {
        CLS_NSDICTIONARY
    }

    fn kind() -> TypeKind {
        TypeKind::ObjC
    }
}

impl<K: Type, V: Type> ObjCClass for NSDictionary<K, V> {
    fn class() -> RawClassPtr {
        RawClassPtr::make(CLS_NSDICTIONARY)
    }
}

impl<K: Type, V: Type> NSObjectProtocol for NSDictionary<K, V> {

}

impl<K: Type, V: Type> NSObjectInterface for NSDictionary<K, V> {
    open spec fn fresh_post(rt: Runtime, id: int) -> bool {
        rt.value_of(id) is Dict && rt.entries_of(id) == Seq::<(usize, usize)>::empty()
            && rt.kcls_of(id) == K::type_class() && rt.vcls_of(id) == V::type_class()
    }

    fn new(rt: &mut Runtime) -> (p: Ptr<Self, Retained>) {
        let entries: Vec<(usize, usize)> = Vec::new();
        let id = rt.allocate(
            CLS_NSDICTIONARY,
            K::type_tag(),
            V::type_tag(),
            ObjValue::Dict(entries),
        );
        Ptr::from_raw_unchecked(RawObjPtr::make(id))
    }
}

impl<K: Type, V: Type> NSDictionaryInterface for NSDictionary<K, V> {
    type Key = K;

    type Value = V;
}

impl<K: Type, V: Type> IsKindOf<crate::foundation::NSObject> for NSDictionary<K, V> {
    proof fn declared_descends() {
        assert(class_descends(CLS_NSOBJECT, CLS_NSOBJECT));
        assert(class_descends(CLS_NSDICTIONARY, CLS_NSOBJECT));
    }
}

/// A mutable dictionary object, typed over its key and value types.
pub struct NSMutableDictionary<K: Type, V: Type> {
    key: core::marker::PhantomData<K>,
    value: core::marker::PhantomData<V>,
}

impl<K: Type, V: Type> Type for NSMutableDictionary<K, V> {
    open spec fn type_class() -> u32 {
        CLS_NSMUTABLEDICTIONARY
    }

    fn type_tag() -> u32 {
        CLS_NSMUTABLEDICTIONARY
    }

    fn kind() -> TypeKind {
        TypeKind::ObjC
    }
}

impl<K: Type, V: Type> ObjCClass for NSMutableDictionary<K, V> {
    fn class() -> RawClassPtr {
        RawClassPtr::make(CLS_NSMUTABLEDICTIONARY)
    }
}

impl<K: Type, V: Type> NSObjectProtocol for NSMutableDictionary<K, V> {

}

impl<K: Type, V: Type> NSObjectInterface for NSMutableDictionary<K, V> {
    open spec fn fresh_post(rt: Runtime, id: int) -> bool {
        rt.value_of(id) is Dict && rt.entries_of(id) == Seq::<(usize, usize)>::empty()
            && rt.kcls_of(id) == K::type_class() && rt.vcls_of(id) == V::type_class()
    }

    fn new(rt: &mut Runtime) -> (p: Ptr<Self, Retained>) {
        let entries: Vec<(usize, usize)> = Vec::new();
        let id = rt.allocate(
            CLS_NSMUTABLEDICTIONARY,
            K::type_tag(),
            V::type_tag(),
            ObjValue::Dict(entries),
        );
        Ptr::from_raw_unchecked(RawObjPtr::make(id))
    }
}

impl<K: Type, V: Type> NSDictionaryInterface for NSMutableDictionary<K, V> {
    type Key = K;

    type Value = V;
}

impl<K: Type, V: Type> NSMutableDictionaryInterface for NSMutableDictionary<K, V> {

}

impl<K: Type, V: Type> IsKindOf<crate::foundation::NSObject> for NSMutableDictionary<K, V> {
    proof fn declared_descends() {
        assert(class_descends(CLS_NSOBJECT, CLS_NSOBJECT));
        assert(class_descends(CLS_NSDICTIONARY, CLS_NSOBJECT));
        assert(class_descends(CLS_NSMUTABLEDICTIONARY, CLS_NSOBJECT));
    }
}

impl<K: Type, V: Type> IsKindOf<NSDictionary<K, V>> for NSMutableDictionary<K, V> {
    proof fn declared_descends() {
        assert(class_descends(CLS_NSDICTIONARY, CLS_NSDICTIONARY));
        assert(class_descends(CLS_NSMUTABLEDICTIONARY, CLS_NSDICTIONARY));
    }
}

/// The lookup operations every dictionary wrapper answers.
pub trait NSDictionaryInterfaceInstanceMethods: Sized {
    /// The identity of the dictionary object behind `self`.
    spec fn dict_id(&self) -> int;

    /// The wrapper names an allocated dictionary object whose key and
    /// value bounds are the view's key and value classes.
    spec fn dict_wf(&self, rt: Runtime) -> bool;

    /// How many entries the dictionary holds.
    fn count(&self, rt: &Runtime) -> (n: usize)
        requires
            rt.inv(),
            self.dict_wf(*rt),
        ensures
            n == rt.entries_of(self.dict_id()).len(),
    ;

    /// Whether the dictionary holds nothing.
    fn is_empty(&self, rt: &Runtime) -> (r: bool)
        requires
            rt.inv(),
            self.dict_wf(*rt),
        ensures
            r == (rt.entries_of(self.dict_id()).len() == 0),
    ;
}

impl<T: NSDictionaryInterface, O: Ownership> NSDictionaryInterfaceInstanceMethods for Ptr<T, O> {
    open spec fn dict_id(&self) -> int {
        self.id()
    }

    open spec fn dict_wf(&self, rt: Runtime) -> bool {
        &&& self.wf(rt)
        &&& rt.value_of(self.id()) is Dict
        &&& rt.kcls_of(self.id()) == <T as NSDictionaryInterface>::Key::type_class()
        &&& rt.vcls_of(self.id()) == <T as NSDictionaryInterface>::Value::type_class()
    }

    fn count(&self, rt: &Runtime) -> (n: usize) {
        rt.dict_len(self.as_raw().index())
    }

    fn is_empty(&self, rt: &Runtime) -> (r: bool) {
        rt.dict_len(self.as_raw().index()) == 0
    }
}

impl<T: NSDictionaryInterface, O: Ownership> Ptr<T, O> {
    /// Look a key up by protocol equality. An absent key is a normal
    /// outcome, answered with `None`; a present key's value comes back
    /// retained into an independently owned wrapper.
    pub fn get<KX, KXO>(&self, rt: &mut Runtime, key: &Ptr<KX, KXO>) -> (r: Option<
        Ptr<<T as NSDictionaryInterface>::Value, Retained>,
    >) where KX: IsKindOf<<T as NSDictionaryInterface>::Key>, KXO: Ownership
        requires
            old(rt).inv(),
            self.dict_wf(*old(rt)),
            key.wf(*old(rt)),
            old(rt).dict_lookup(self.id(), key.id()) matches Some(v) ==> old(rt).rc(v as int)
                < u64::MAX,
        ensures
            final(rt).inv(),
            old(rt).dict_lookup(self.id(), key.id()) is None ==> r is None && *final(rt) == *old(
                rt,
            ),
            old(rt).dict_lookup(self.id(), key.id()) matches Some(v) ==> (r matches Some(p)
                && p.id() == v && p.wf(*final(rt)) && final(rt).same_except(*old(rt), v as int)
                && final(rt).only_rc_changed(*old(rt), v as int) && final(rt).rc(v as int) == old(
                rt,
            ).rc(v as int) + 1),
    {
        let found = rt.dict_get(self.as_raw().index(), key.as_raw().index());
        match found {
            None => None,
            Some(v) => {
                proof {
                    rt.lemma_find_key_bounds(rt.entries_of(self.id()), key.id());
                    assert(rt.entry_inv(self.id()));
                }
                let borrowed: Ptr<<T as NSDictionaryInterface>::Value, crate::base::Borrowed> =
                    Ptr::from_raw_unchecked(RawObjPtr::make(v));
                let p = borrowed.retain(rt);
                proof {
                    if p.id() != self.id() {
                        assert(rt.entry_eq(*old(rt), self.id()));
                    }
                }
                Some(p)
            },
        }
    }
}

/// The in-place operations every mutable dictionary wrapper answers.
pub trait NSMutableDictionaryInterfaceInstanceMethods: NSDictionaryInterfaceInstanceMethods {
    /// Drop every entry; the structural change bumps the mutation counter
    /// that enumeration watches.
    fn remove_all(&self, rt: &mut Runtime)
        requires
            old(rt).inv(),
            self.dict_wf(*old(rt)),
            old(rt).muts_of(self.dict_id()) < u64::MAX,
        ensures
            final(rt).inv(),
            final(rt).same_except(*old(rt), self.dict_id()),
            final(rt).only_contents_changed(*old(rt), self.dict_id()),
            final(rt).muts_of(self.dict_id()) == old(rt).muts_of(self.dict_id()) + 1,
            final(rt).entries_of(self.dict_id()) == Seq::<(usize, usize)>::empty(),
            self.dict_wf(*final(rt)),
    ;
}

impl<T: NSMutableDictionaryInterface, O: Ownership> NSMutableDictionaryInterfaceInstanceMethods for Ptr<T, O> {
    fn remove_all(&self, rt: &mut Runtime) {
        rt.dict_clear(self.as_raw().index());
    }
}

impl<T: NSMutableDictionaryInterface, O: Ownership> Ptr<T, O> {
    /// Insert or replace in place: the entry whose key is protocol-equal
    /// to `key` gets `value`; with no such entry the pair is appended.
    pub fn set<KX, KXO, VX, VXO>(&self, rt: &mut Runtime, key: &Ptr<KX, KXO>, value: &Ptr<VX, VXO>) where
        KX: IsKindOf<<T as NSDictionaryInterface>::Key>,
        KXO: Ownership,
        VX: IsKindOf<<T as NSDictionaryInterface>::Value>,
        VXO: Ownership,

        requires
            old(rt).inv(),
            self.dict_wf(*old(rt)),
            key.wf(*old(rt)),
            value.wf(*old(rt)),
            old(rt).muts_of(self.id()) < u64::MAX,
        ensures
            final(rt).inv(),
            final(rt).same_except(*old(rt), self.id()),
            final(rt).only_contents_changed(*old(rt), self.id()),
            final(rt).muts_of(self.id()) == old(rt).muts_of(self.id()) + 1,
            final(rt).entries_of(self.id()) == match old(rt).find_key(
                old(rt).entries_of(self.id()),
                key.id(),
            ) {
                Some(i) => old(rt).entries_of(self.id()).update(
                    i,
                    (key.id() as usize, value.id() as usize),
                ),
                None => old(rt).entries_of(self.id()).push(
                    (key.id() as usize, value.id() as usize),
                ),
            },
            self.dict_wf(*final(rt)),
    {
        proof {
            KX::declared_descends();
            lemma_descends_trans(
                rt.class_of(key.id()),
                KX::type_class(),
                <T as NSDictionaryInterface>::Key::type_class(),
            );
            VX::declared_descends();
            lemma_descends_trans(
                rt.class_of(value.id()),
                VX::type_class(),
                <T as NSDictionaryInterface>::Value::type_class(),
            );
        }
        rt.dict_set(self.as_raw().index(), key.as_raw().index(), value.as_raw().index());
    }

    /// Remove the entry whose key is protocol-equal to `key`, if any.
    pub fn remove<KX, KXO>(&self, rt: &mut Runtime, key: &Ptr<KX, KXO>) where
        KX: IsKindOf<<T as NSDictionaryInterface>::Key>,
        KXO: Ownership,

        requires
            old(rt).inv(),
            self.dict_wf(*old(rt)),
            key.wf(*old(rt)),
            old(rt).muts_of(self.id()) < u64::MAX,
        ensures
            final(rt).inv(),
            final(rt).same_except(*old(rt), self.id()),
            final(rt).only_contents_changed(*old(rt), self.id()),
            final(rt).muts_of(self.id()) == old(rt).muts_of(self.id()) + 1,
            final(rt).entries_of(self.id()) == match old(rt).find_key(
                old(rt).entries_of(self.id()),
                key.id(),
            ) {
                Some(i) => old(rt).entries_of(self.id()).remove(i),
                None => old(rt).entries_of(self.id()),
            },
            self.dict_wf(*final(rt)),
    {
        rt.dict_remove(self.as_raw().index(), key.as_raw().index());
    }

}

} // verus!
