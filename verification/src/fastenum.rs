//! The chunked, mutation-detecting enumeration protocol.
//!
//! The iterator pulls elements out of a native array in rounds of at most
//! [`FAST_ENUMERATOR_BUFFER_LEN`] borrowed references, remembers the
//! array's mutation counter when a round is fetched, and refuses to keep
//! going when the counter has moved: the backing storage may have moved
//! with it. Every yielded element is retained into an owned wrapper
//! before it is handed out, because the borrowed buffer references are
//! only valid for the round that produced them.

use vstd::prelude::*;

use crate::base::Borrowed;
use crate::base::Ownership;
use crate::base::Ptr;
use crate::base::RawObjPtr;
use crate::base::Retained;
use crate::base::Type;
use crate::nsarray::NSArrayInterface;
use crate::runtime::Runtime;

verus! {

/// How many borrowed references one enumeration round fetches at most.
pub const FAST_ENUMERATOR_BUFFER_LEN: usize = 16;

/// The state blob the enumeration protocol threads through its rounds:
/// navigated, never interpreted, by the caller.
pub struct NSFastEnumerationState {
    /// The protocol's cursor: how many elements rounds have consumed.
    pub state: usize,
    /// Scratch space the protocol may use between rounds.
    pub extra: u64,
}

impl NSFastEnumerationState {
    /// A zeroed state blob, ready for a first round.
    pub fn new() -> (s: NSFastEnumerationState)
        ensures
            s.state == 0,
            s.extra == 0,
    {
        NSFastEnumerationState { state: 0, extra: 0 }
    }
}

/// The report that the enumerated container was structurally modified
/// during iteration. Continuing would read from a buffer whose backing
/// store may have moved, so iteration refuses to go on.
#[derive(Clone, Copy, PartialEq, Eq, Structural, Debug)]
pub struct MutationDetected;

/// A restartless iterator over a native array: chunked rounds, a saved
/// mutation counter per round, owned elements out.
pub struct NSFastEnumerationIter<Item: Type> {
    enumerable: RawObjPtr,
    buffer: Vec<usize>,
    state: NSFastEnumerationState,
    start_mutations: u64,
    index: usize,
    preloaded_count: usize,
    item: core::marker::PhantomData<Item>,
}

impl<Item: Type> NSFastEnumerationIter<Item> {
    /// The identity of the array being enumerated.
    pub closed spec fn arr_id(self) -> int {
        self.enumerable.id()
    }

    /// Whether the current round still holds elements to hand out.
    pub closed spec fn buffered(self) -> bool {
        self.index < self.preloaded_count
    }

    /// The mutation counter saved when the current round was fetched.
    pub closed spec fn start_muts(self) -> int {
        self.start_mutations as int
    }

    /// The position in the array of the element the next call hands out.
    pub closed spec fn next_pos(self) -> int {
        if self.index < self.preloaded_count {
            self.state.state - self.preloaded_count + self.index
        } else {
            self.state.state as int
        }
    }

    /// The iterator is well formed: it names a real array object of the
    /// right element bound, its cursor arithmetic is consistent, and, as
    /// long as the array's mutation counter still reads as it did when
    /// the round was fetched, the buffered references mirror the array.
    pub closed spec fn wf(self, rt: Runtime) -> bool {
        &&& rt.contains(self.arr_id())
        &&& rt.value_of(self.arr_id()) is Arr
        &&& rt.vcls_of(self.arr_id()) == Item::type_class()
        &&& self.index <= self.preloaded_count
        &&& self.preloaded_count == self.buffer@.len()
        &&& self.preloaded_count <= FAST_ENUMERATOR_BUFFER_LEN
        &&& self.preloaded_count <= self.state.state
        &&& (self.buffered() && rt.muts_of(self.arr_id()) == self.start_muts() ==> self.state.state
            <= rt.elems_of(self.arr_id()).len() && (forall|j: int|
            self.index <= j < self.preloaded_count ==> self.buffer@[j] == rt.elems_of(
                self.arr_id(),
            )[self.state.state - self.preloaded_count + j]))
    }

    /// Pull the next element. A fresh round is fetched when the buffer is
    /// spent; a spent array ends the iteration; a mutation since the
    /// current round was fetched is reported instead of an element; and
    /// an element handed out is retained into an owned wrapper first.
    pub fn next(&mut self, rt: &mut Runtime) -> (r: Result<
        Option<Ptr<Item, Retained>>,
        MutationDetected,
    >)
        requires
            old(rt).inv(),
            old(self).wf(*old(rt)),
            0 <= old(self).next_pos() < old(rt).elems_of(old(self).arr_id()).len() ==> old(rt).rc(
                old(rt).elems_of(old(self).arr_id())[old(self).next_pos()] as int,
            ) < u64::MAX,
        ensures
            final(rt).inv(),
            final(self).arr_id() == old(self).arr_id(),
            r is Err <==> old(self).buffered() && old(rt).muts_of(old(self).arr_id()) != old(
                self,
            ).start_muts(),
            r is Err ==> *final(rt) == *old(rt) && *final(self) == *old(self),
            r matches Ok(o) ==> (o is None <==> !old(self).buffered() && old(rt).elems_of(
                old(self).arr_id(),
            ).len() <= old(self).next_pos()),
            r matches Ok(o) ==> (o is None ==> *final(rt) == *old(rt) && final(self).wf(*final(rt))
                && final(self).next_pos() == old(self).next_pos()),
            r matches Ok(o) ==> (o matches Some(p) ==> {
                &&& 0 <= old(self).next_pos() < old(rt).elems_of(old(self).arr_id()).len()
                &&& p.id() == old(rt).elems_of(old(self).arr_id())[old(self).next_pos()]
                &&& p.wf(*final(rt))
                &&& final(rt).same_except(*old(rt), p.id())
                &&& final(rt).only_rc_changed(*old(rt), p.id())
                &&& final(rt).rc(p.id()) == old(rt).rc(p.id()) + 1
                &&& final(rt).elems_of(old(self).arr_id()) == old(rt).elems_of(old(self).arr_id())
                &&& final(self).wf(*final(rt))
                &&& final(self).next_pos() == old(self).next_pos() + 1
                &&& final(rt).muts_of(old(self).arr_id()) == final(self).start_muts()
            }),
    {
        let arr = self.enumerable.index();
        if self.index >= self.preloaded_count {
            self.index = 0;
            let len = rt.arr_len(arr);
            let start = self.state.state;
            if start >= len {
                self.preloaded_count = 0;
                self.buffer = Vec::new();
                return Ok(None);
            }
            let room = len - start;
            let k: usize = if room >= FAST_ENUMERATOR_BUFFER_LEN {
                FAST_ENUMERATOR_BUFFER_LEN
            } else {
                room
            };
            let mut fetched: Vec<usize> = Vec::new();
            let mut i: usize = 0;
            while i < k
                invariant
                    i <= k,
                    rt.inv(),
                    rt.contains(arr as int),
                    start + k <= len,
                    len == rt.elems_of(arr as int).len(),
                    fetched@.len() == i as int,
                    forall|j: int|
                        0 <= j < i ==> fetched@[j] == rt.elems_of(arr as int)[start + j],
                decreases k - i,
            {
                let e = rt.arr_get(arr, start + i);
                fetched.push(e);
                i = i + 1;
            }
            self.buffer = fetched;
            self.preloaded_count = k;
            self.state.state = start + k;
            self.start_mutations = rt.muts_value(arr);
        } else {
            if rt.muts_value(arr) != self.start_mutations {
                return Err(MutationDetected);
            }
        }
        proof {
            assert(rt.entry_inv(self.arr_id()));
        }
        let e = self.buffer[self.index];
        let borrowed: Ptr<Item, Borrowed> = Ptr::from_raw_unchecked(RawObjPtr::make(e));
        let p = borrowed.retain(rt);
        self.index = self.index + 1;
        proof {
            if p.id() != self.arr_id() {
                assert(rt.entry_eq(*old(rt), self.arr_id()));
            }
        }
        Ok(Some(p))
    }
}

impl<T: NSArrayInterface, O: Ownership> Ptr<T, O> {
    /// Begin enumerating this array. The iterator starts before the first
    /// element; a spent iterator stays spent, and a fresh one must be made
    /// to enumerate again.
    pub fn iter(&self, rt: &Runtime) -> (it: NSFastEnumerationIter<<T as NSArrayInterface>::Item>)
        requires
            rt.inv(),
            self.array_wf(*rt),
        ensures
            it.wf(*rt),
            it.arr_id() == self.id(),
            it.next_pos() == 0,
            !it.buffered(),
    {
        NSFastEnumerationIter {
            enumerable: self.as_raw(),
            buffer: Vec::new(),
            state: NSFastEnumerationState::new(),
            start_mutations: 0,
            index: 0,
            preloaded_count: 0,
            item: core::marker::PhantomData,
        }
    }

    /// Enumerate the whole array without interleaved mutation: exactly one
    /// owned wrapper per element, in array order, each valid on its own
    /// after the iteration is over.
    pub fn collect_retained(&self, rt: &mut Runtime) -> (out: Vec<
        Ptr<<T as NSArrayInterface>::Item, Retained>,
    >)
        requires
            old(rt).inv(),
            self.array_wf(*old(rt)),
            forall|j: int|
                0 <= j < old(rt).elems_of(self.id()).len() ==> old(rt).rc(
                    #[trigger] old(rt).elems_of(self.id())[j] as int,
                ) + old(rt).elems_of(self.id()).len() <= u64::MAX,
        ensures
            final(rt).inv(),
            out@.len() == old(rt).elems_of(self.id()).len(),
            forall|i: int|
                0 <= i < out@.len() ==> (#[trigger] out@[i].id()) == old(rt).elems_of(
                    self.id(),
                )[i] && out@[i].wf(*final(rt)),
            final(rt).elems_of(self.id()) == old(rt).elems_of(self.id()),
            final(rt).n_objects() == old(rt).n_objects(),
            self.array_wf(*final(rt)),
    {
        let ghost elems = old(rt).elems_of(self.id());
        let mut it = self.iter(rt);
        let mut out: Vec<Ptr<<T as NSArrayInterface>::Item, Retained>> = Vec::new();
        loop
            invariant
                rt.inv(),
                it.wf(*rt),
                it.arr_id() == self.id(),
                self.array_wf(*rt),
                elems == old(rt).elems_of(self.id()),
                forall|j: int|
                    0 <= j < elems.len() ==> old(rt).rc(#[trigger] elems[j] as int) + elems.len()
                        <= u64::MAX,
                rt.elems_of(self.id()) == elems,
                rt.n_objects() == old(rt).n_objects(),
                it.buffered() ==> rt.muts_of(self.id()) == it.start_muts(),
                0 <= it.next_pos() <= elems.len(),
                out@.len() == it.next_pos(),
                forall|i: int|
                    0 <= i < out@.len() ==> (#[trigger] out@[i].id()) == elems[i] && out@[i].wf(
                        *rt,
                    ),
                forall|j: int|
                    0 <= j < elems.len() ==> rt.rc(#[trigger] elems[j] as int) <= old(rt).rc(
                        elems[j] as int,
                    ) + out@.len(),
            decreases elems.len() - it.next_pos() + 1,
        {
            let ghost rt_pre = *rt;
            let ghost out_pre = out@;
            proof {
                assert(rt.entry_inv(self.id()));
                if 0 <= it.next_pos() && it.next_pos() < elems.len() {
                    let j = it.next_pos();
                    assert(rt.rc(elems[j] as int) <= old(rt).rc(elems[j] as int) + out@.len());
                }
            }
            let step = it.next(rt);
            match step {
                Ok(Some(p)) => {
                    proof {
                        assert forall|i: int|
                            0 <= i < out_pre.len() implies out_pre[i].wf(*rt) by {
                            if out_pre[i].id() != p.id() {
                                assert(rt.entry_eq(rt_pre, out_pre[i].id()));
                            }
                        }
                        if p.id() != self.id() {
                            assert(rt.entry_eq(rt_pre, self.id()));
                        }
                        assert forall|j: int|
                            0 <= j < elems.len() implies rt.rc(#[trigger] elems[j] as int)
                            <= old(rt).rc(elems[j] as int) + out_pre.len() + 1 by {
                            assert(rt_pre.entry_inv(self.id()));
                            assert(rt_pre.elem_ok(elems[j], rt_pre.vcls_of(self.id())));
                            if elems[j] as int != p.id() {
                                assert(rt.entry_eq(rt_pre, elems[j] as int));
                            }
                        }
                    }
                    out.push(p);
                },
                Ok(None) => {
                    return out;
                },
                Err(_) => {
                    proof {
                        assert(false);
                    }
                },
            }
        }
    }
}

} // verus!
