//! The laws the ownership model is built around, stated once and proved.

use vstd::prelude::*;

use crate::base::Borrowed;
use crate::base::IsKindOf;
use crate::base::Ownership;
use crate::base::Ptr;
use crate::base::Retained;
use crate::base::Static;
use crate::base::Type;
use crate::runtime::class_family;
use crate::runtime::lemma_descends_trans;
use crate::runtime::val_eq;
use crate::runtime::ObjValue;
use crate::runtime::Runtime;
use crate::runtime::FAM_IDENTITY;

verus! {

/// One reference-counting step observed by the store: a retain or a
/// release of one object.
pub enum RefOp {
    Retain,
    Release,
}

/// The net effect a sequence of retains and releases has on a reference
/// count: one up for each retain, one down for each release.
pub open spec fn net_delta(ops: Seq<RefOp>) -> int
    decreases ops.len(),
{
    if ops.len() == 0 {
        0
    } else {
        (match ops[0] {
            RefOp::Retain => 1int,
            RefOp::Release => -1int,
        }) + net_delta(ops.drop_first())
    }
}

/// One step of a trace: the store after the operation records exactly one
/// more or one fewer reference for the object. This is precisely what the
/// contracts of the retain and release operations state.
pub open spec fn rc_step(pre: Runtime, post: Runtime, id: int, op: RefOp) -> bool {
    post.rc(id) == pre.rc(id) + (match op {
        RefOp::Retain => 1int,
        RefOp::Release => -1int,
    })
}

/// A trace: `states` walks through `ops`, one reference-counting step at
/// a time.
pub open spec fn rc_trace(states: Seq<Runtime>, id: int, ops: Seq<RefOp>) -> bool {
    &&& states.len() == ops.len() + 1
    &&& forall|i: int| 0 <= i < ops.len() ==> rc_step(states[i], states[i + 1], id, #[trigger] ops[i])
}

/// Balanced refcounting: across any sequence of retain and release steps
/// on one object, the count the store observes moves by exactly the
/// number of retains minus the number of releases -- never more, never
/// less. Each verified retain, clone-by-retain and release is one such
/// step by its contract, so any program built from them keeps its
/// accounting exact.
pub proof fn lemma_refcount_balanced(states: Seq<Runtime>, id: int, ops: Seq<RefOp>)
    requires
        rc_trace(states, id, ops),
    ensures
        states.last().rc(id) == states.first().rc(id) + net_delta(ops),
    decreases ops.len(),
{
    if ops.len() == 0 {
        assert(states.last() == states[0]);
    } else {
        assert(rc_step(states[0], states[1], id, ops[0]));
        lemma_refcount_balanced(states.drop_first(), id, ops.drop_first());
        assert(states.drop_first().first() == states[1]);
        assert(states.drop_first().last() == states.last());
    }
}

/// Static immortality: the static ownership policy never releases, so by
/// the contract of giving a wrapper up, dropping a static wrapper any
/// number of times leaves the store exactly as it was.
pub proof fn lemma_static_policy_never_releases()
    ensures
        !<Static as Ownership>::releases(),
        <Retained as Ownership>::releases(),
        !<Borrowed as Ownership>::releases(),
{
}

/// Kind substitutability: a wrapper well formed at a type `A` declared to
/// be a kind of `B` is well formed at `B` as well. Every operation's
/// contract speaks only of the wrapped identity, so passing the wrapper
/// where a `B` is expected behaves exactly as passing a `B` with the same
/// identity would.
pub proof fn lemma_kind_substitutable<A: IsKindOf<B>, B: Type, O: Ownership>(
    p: Ptr<A, O>,
    q: Ptr<B, O>,
    rt: Runtime,
)
    requires
        p.wf(rt),
        p.id() == q.id(),
    ensures
        q.wf(rt),
{
    A::declared_descends();
    lemma_descends_trans(rt.class_of(p.id()), A::type_class(), B::type_class());
}

/// Identity always implies protocol equality: an object compared against
/// itself is equal, whatever its class.
pub proof fn lemma_obj_eq_reflexive(rt: Runtime, a: int)
    ensures
        rt.obj_eq(a, a),
{
}

/// Protocol equality is symmetric.
pub proof fn lemma_obj_eq_symmetric(rt: Runtime, a: int, b: int)
    ensures
        rt.obj_eq(a, b) == rt.obj_eq(b, a),
{
}

/// Equality against identity: two distinct, separately constructed
/// objects of a value family compare equal exactly when their contents
/// agree, even though their identities differ.
pub proof fn lemma_value_equality(rt: Runtime, a: int, b: int)
    requires
        class_family(rt.class_of(a)) == class_family(rt.class_of(b)),
        class_family(rt.class_of(a)) != FAM_IDENTITY,
        val_eq(rt.value_of(a), rt.value_of(b)),
    ensures
        rt.obj_eq(a, b),
{
}

/// Objects that compare equal hash alike, whichever family they belong
/// to: the hash is derived from the identity exactly where equality is
/// identity, and from the content exactly where equality is content.
pub proof fn lemma_equal_objects_hash_alike(rt: Runtime, a: int, b: int)
    requires
        rt.inv(),
        rt.contains(a),
        rt.contains(b),
        rt.obj_eq(a, b),
    ensures
        rt.obj_hash(a) == rt.obj_hash(b),
{
    if a != b {
        assert(rt.entry_inv(a));
        assert(rt.entry_inv(b));
        match (rt.value_of(a), rt.value_of(b)) {
            (ObjValue::Str(x), ObjValue::Str(y)) => {
                assert(x@.len() == y@.len());
            },
            (ObjValue::Arr(x), ObjValue::Arr(y)) => {
                assert(x@.len() == y@.len());
            },
            (ObjValue::Dict(x), ObjValue::Dict(y)) => {
                assert(x@.len() == y@.len());
            },
            _ => {},
        }
    }
}

/// Objects of an identity family are equal only to themselves: for them,
/// protocol equality and pointer identity coincide.
pub proof fn lemma_identity_equality(rt: Runtime, a: int, b: int)
    requires
        class_family(rt.class_of(a)) == FAM_IDENTITY,
    ensures
        rt.obj_eq(a, b) == (a == b),
{
}

} // verus!
