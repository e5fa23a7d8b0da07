//! The modelled native object store.
//!
//! A [`Runtime`] value stands for the state of the foreign object system: a
//! table of objects, each with a reference count, a class tag, a value and a
//! mutation counter, plus the depth of the autorelease-pool stack. All
//! higher layers manipulate the store only through the verified operations
//! defined here.
//!
//! A reference count of zero means the native side is free to reclaim the
//! object; the table keeps the slot, so every identity ever handed out
//! stays addressable and the accounting of each one stays exact.

use vstd::prelude::*;
use vstd::string::StrSliceExecFns;

verus! {

/// Which native reference-counting ABI governs a type: the Objective-C
/// runtime's retain/release, or Core Foundation's CFRetain/CFRelease.
#[derive(Clone, Copy, PartialEq, Eq, Structural)]
pub enum TypeKind {
    ObjC,
    CF,
}

/// The value carried by a modelled object. Container values hold the
/// identities of their elements, not copies of them.
pub enum ObjValue {
    /// An object with no observable content; equality is identity.
    Plain,
    /// Text content (strings, URL strings, media type tags).
    Str(String),
    /// Numeric content (numbers, timestamps).
    Int(i128),
    /// An ordered list of object identities.
    Arr(Vec<usize>),
    /// Key/value pairs of object identities.
    Dict(Vec<(usize, usize)>),
    /// A four-character media code (format descriptions).
    Code(u32),
}

/// One slot of the object table.
pub struct ObjEntry {
    /// Outstanding reference-count increments the binding is accountable for.
    pub rc: u64,
    /// Which refcounting ABI governs this object.
    pub kind: TypeKind,
    /// The class tag of the object.
    pub class: u32,
    /// The object's content.
    pub value: ObjValue,
    /// Bumped by every structural mutation; read by enumeration.
    pub muts: u64,
    /// For dictionaries: the class bound on keys.
    pub kcls: u32,
    /// For arrays and dictionaries: the class bound on elements or values.
    pub vcls: u32,
}

/// Class tags of the modelled class hierarchy. Every tag's parent has a
/// strictly smaller tag, so walks towards the root terminate.
pub const CLS_NSOBJECT: u32 = 0;

pub const CLS_NSSTRING: u32 = 1;

pub const CLS_NSMUTABLESTRING: u32 = 2;

pub const CLS_NSARRAY: u32 = 3;

pub const CLS_NSMUTABLEARRAY: u32 = 4;

pub const CLS_NSDICTIONARY: u32 = 5;

pub const CLS_NSMUTABLEDICTIONARY: u32 = 6;

pub const CLS_NSDATE: u32 = 7;

pub const CLS_NSNUMBER: u32 = 8;

pub const CLS_NSERROR: u32 = 9;

pub const CLS_NSURL: u32 = 10;

pub const CLS_AVASSET: u32 = 11;

pub const CLS_AVURLASSET: u32 = 12;

pub const CLS_AVASSETTRACK: u32 = 13;

pub const CLS_AVASSETREADER: u32 = 14;

pub const CLS_AVASSETREADEROUTPUT: u32 = 15;

pub const CLS_AVASSETREADERTRACKOUTPUT: u32 = 16;

pub const CLS_AVASSETREADERSAMPLEREFERENCEOUTPUT: u32 = 17;

pub const CLS_AVPLAYERITEM: u32 = 18;

pub const CLS_AVPLAYER: u32 = 19;

pub const CLS_AVAUDIOPLAYER: u32 = 20;

pub const CLS_CMFORMATDESCRIPTION: u32 = 21;

/// The parent of a class tag; the root object class is its own parent.
pub open spec fn class_parent(c: u32) -> u32 {
    if c == CLS_NSMUTABLESTRING {
        CLS_NSSTRING
    } else if c == CLS_NSMUTABLEARRAY {
        CLS_NSARRAY
    } else if c == CLS_NSMUTABLEDICTIONARY {
        CLS_NSDICTIONARY
    } else if c == CLS_AVURLASSET {
        CLS_AVASSET
    } else if c == CLS_AVASSETREADERTRACKOUTPUT {
        CLS_AVASSETREADEROUTPUT
    } else if c == CLS_AVASSETREADERSAMPLEREFERENCEOUTPUT {
        CLS_AVASSETREADEROUTPUT
    } else if c == CLS_CMFORMATDESCRIPTION {
        CLS_CMFORMATDESCRIPTION
    } else {
        CLS_NSOBJECT
    }
}

/// Whether class `c` is `d` or descends from `d` in the modelled hierarchy.
pub open spec fn class_descends(c: u32, d: u32) -> bool
    decreases c,
{
    c == d || (class_parent(c) < c && class_descends(class_parent(c), d))
}

/// The is-a relation is transitive.
pub proof fn lemma_descends_trans(a: u32, b: u32, c: u32)
    requires
        class_descends(a, b),
        class_descends(b, c),
    ensures
        class_descends(a, c),
    decreases a,
{
    if a != b {
        lemma_descends_trans(class_parent(a), b, c);
    }
}

/// Descent never crosses between the two refcounting ABIs: a class and
/// every class it descends from are governed by the same ABI.
pub proof fn lemma_descends_same_kind(c: u32, d: u32)
    requires
        class_descends(c, d),
    ensures
        class_kind(c) == class_kind(d),
    decreases c,
{
    if c != d {
        lemma_descends_same_kind(class_parent(c), d);
    }
}

/// Descent into a class with a value-based equality family stays inside
/// that family: every class descending from it compares by the same kind
/// of content.
pub proof fn lemma_descends_value_family(c: u32, d: u32)
    requires
        class_descends(c, d),
        class_family(d) != FAM_IDENTITY,
    ensures
        class_family(c) == class_family(d),
    decreases c,
{
    if c != d {
        lemma_descends_value_family(class_parent(c), d);
    }
}

/// Which refcounting ABI governs instances of class `c`.
pub open spec fn class_kind(c: u32) -> TypeKind {
    if c == CLS_CMFORMATDESCRIPTION {
        TypeKind::CF
    } else {
        TypeKind::ObjC
    }
}

/// Equality families: objects compare equal by value only within the same
/// family; family 0 compares by identity alone.
pub const FAM_IDENTITY: u32 = 0;

pub const FAM_STRING: u32 = 1;

pub const FAM_URL: u32 = 2;

pub const FAM_ARRAY: u32 = 3;

pub const FAM_DICTIONARY: u32 = 4;

pub const FAM_NUMBER: u32 = 5;

pub const FAM_DATE: u32 = 6;

pub const FAM_FORMAT: u32 = 7;

/// The equality family of class `c`.
pub open spec fn class_family(c: u32) -> u32 {
    if c == CLS_NSSTRING || c == CLS_NSMUTABLESTRING {
        FAM_STRING
    } else if c == CLS_NSURL {
        FAM_URL
    } else if c == CLS_NSARRAY || c == CLS_NSMUTABLEARRAY {
        FAM_ARRAY
    } else if c == CLS_NSDICTIONARY || c == CLS_NSMUTABLEDICTIONARY {
        FAM_DICTIONARY
    } else if c == CLS_NSNUMBER {
        FAM_NUMBER
    } else if c == CLS_NSDATE {
        FAM_DATE
    } else if c == CLS_CMFORMATDESCRIPTION {
        FAM_FORMAT
    } else {
        FAM_IDENTITY
    }
}

/// Whether a value has the shape instances of class `c` carry.
pub open spec fn value_matches_class(c: u32, v: ObjValue) -> bool {
    if class_family(c) == FAM_STRING || class_family(c) == FAM_URL {
        v is Str
    } else if class_family(c) == FAM_ARRAY {
        v is Arr
    } else if class_family(c) == FAM_DICTIONARY {
        v is Dict
    } else if class_family(c) == FAM_NUMBER || class_family(c) == FAM_DATE {
        v is Int
    } else if class_family(c) == FAM_FORMAT {
        v is Code
    } else {
        v is Plain
    }
}

/// Value equality of two object values, compared by content. Container
/// values compare by the identities they hold, which keeps the relation
/// well-founded even for self-referential containers.
pub open spec fn val_eq(a: ObjValue, b: ObjValue) -> bool {
    match (a, b) {
        (ObjValue::Plain, ObjValue::Plain) => true,
        (ObjValue::Str(x), ObjValue::Str(y)) => x@ == y@,
        (ObjValue::Int(x), ObjValue::Int(y)) => x == y,
        (ObjValue::Arr(x), ObjValue::Arr(y)) => x@ == y@,
        (ObjValue::Dict(x), ObjValue::Dict(y)) => x@ == y@,
        (ObjValue::Code(x), ObjValue::Code(y)) => x == y,
        _ => false,
    }
}

/// Identities of the objects every store starts with: the immortal string
/// constants the frameworks export.
pub const STATIC_MEDIA_AUDIO: usize = 0;

pub const STATIC_MEDIA_VIDEO: usize = 1;

pub const STATIC_MEDIA_TEXT: usize = 2;

pub const STATIC_MEDIA_CLOSED_CAPTION: usize = 3;

pub const STATIC_MEDIA_SUBTITLE: usize = 4;

pub const STATIC_MEDIA_TIMECODE: usize = 5;

pub const STATIC_MEDIA_METADATA: usize = 6;

pub const STATIC_MEDIA_METADATA_OBJECT: usize = 7;

pub const STATIC_MEDIA_DEPTH_DATA: usize = 8;

pub const STATIC_MEDIA_MUXED: usize = 9;

pub const STATIC_PRECISE_TIMING_KEY: usize = 10;

/// How many immortal objects every store starts with.
pub const N_STATICS: usize = 11;

/// The text of the immortal string constant with identity `i`.
pub open spec fn static_text(i: int) -> Seq<char> {
    if i == 0 {
        "soun"@
    } else if i == 1 {
        "vide"@
    } else if i == 2 {
        "text"@
    } else if i == 3 {
        "clcp"@
    } else if i == 4 {
        "sbtl"@
    } else if i == 5 {
        "tmcd"@
    } else if i == 6 {
        "meta"@
    } else if i == 7 {
        "mobj"@
    } else if i == 8 {
        "dpth"@
    } else if i == 9 {
        "muxx"@
    } else {
        "AVURLAssetPreferPreciseDurationAndTimingKey"@
    }
}

/// The state of the modelled object system.
pub struct Runtime {
    pub(crate) objects: Vec<ObjEntry>,
    pub(crate) pool_depth: usize,
    pub(crate) now: i64,
}

impl Runtime {
    /// A fresh store: it holds exactly the immortal string constants, no
    /// autorelease pool is open, and the clock reads zero.
    pub fn new() -> (rt: Runtime)
        ensures
            rt.inv(),
            rt.n_objects() == N_STATICS,
            rt.pool_depth() == 0,
            rt.clock() == 0,
            forall|i: int| 0 <= i < N_STATICS ==> #[trigger] rt.rc(i) == 1,
    {
        let mut objects: Vec<ObjEntry> = Vec::new();
        push_static_string(&mut objects, "soun");
        push_static_string(&mut objects, "vide");
        push_static_string(&mut objects, "text");
        push_static_string(&mut objects, "clcp");
        push_static_string(&mut objects, "sbtl");
        push_static_string(&mut objects, "tmcd");
        push_static_string(&mut objects, "meta");
        push_static_string(&mut objects, "mobj");
        push_static_string(&mut objects, "dpth");
        push_static_string(&mut objects, "muxx");
        push_static_string(&mut objects, "AVURLAssetPreferPreciseDurationAndTimingKey");
        let rt = Runtime { objects, pool_depth: 0, now: 0 };
        proof {
            assert forall|i: int| 0 <= i < rt.n_objects() implies #[trigger] rt.entry_inv(i) by {
                assert(rt.class_of(i) == CLS_NSSTRING);
                assert(rt.value_of(i) is Str);
            }
            assert forall|i: int| 0 <= i < N_STATICS implies #[trigger] rt.static_entry_ok(
                i,
            ) by {
                assert(rt.value_of(i) is Str);
                if i == 0 {
                    reveal_strlit("soun");
                    assert(rt.str_of(0) == static_text(0));
                } else if i == 1 {
                    reveal_strlit("vide");
                    assert(rt.str_of(1) == static_text(1));
                } else if i == 2 {
                    reveal_strlit("text");
                    assert(rt.str_of(2) == static_text(2));
                } else if i == 3 {
                    reveal_strlit("clcp");
                    assert(rt.str_of(3) == static_text(3));
                } else if i == 4 {
                    reveal_strlit("sbtl");
                    assert(rt.str_of(4) == static_text(4));
                } else if i == 5 {
                    reveal_strlit("tmcd");
                    assert(rt.str_of(5) == static_text(5));
                } else if i == 6 {
                    reveal_strlit("meta");
                    assert(rt.str_of(6) == static_text(6));
                } else if i == 7 {
                    reveal_strlit("mobj");
                    assert(rt.str_of(7) == static_text(7));
                } else if i == 8 {
                    reveal_strlit("dpth");
                    assert(rt.str_of(8) == static_text(8));
                } else if i == 9 {
                    reveal_strlit("muxx");
                    assert(rt.str_of(9) == static_text(9));
                } else {
                    reveal_strlit("AVURLAssetPreferPreciseDurationAndTimingKey");
                    assert(rt.str_of(10) == static_text(10));
                }
            }
        }
        rt
    }

    /// How many objects have ever been allocated in this store.
    pub closed spec fn n_objects(self) -> nat {
        self.objects@.len()
    }

    /// Whether `id` names an allocated object.
    pub open spec fn contains(self, id: int) -> bool {
        0 <= id < self.n_objects()
    }

    /// The reference count of object `id`.
    pub closed spec fn rc(self, id: int) -> nat {
        self.objects@[id].rc as nat
    }

    /// The class tag of object `id`.
    pub closed spec fn class_of(self, id: int) -> u32 {
        self.objects@[id].class
    }

    /// The refcounting ABI governing object `id`.
    pub closed spec fn kind_of(self, id: int) -> TypeKind {
        self.objects@[id].kind
    }

    /// The value of object `id`.
    pub closed spec fn value_of(self, id: int) -> ObjValue {
        self.objects@[id].value
    }

    /// The mutation counter of object `id`.
    pub closed spec fn muts_of(self, id: int) -> nat {
        self.objects@[id].muts as nat
    }

    /// The key class bound of object `id` (dictionaries).
    pub closed spec fn kcls_of(self, id: int) -> u32 {
        self.objects@[id].kcls
    }

    /// The element or value class bound of object `id` (containers).
    pub closed spec fn vcls_of(self, id: int) -> u32 {
        self.objects@[id].vcls
    }

    /// The depth of the autorelease-pool stack.
    pub closed spec fn pool_depth(self) -> nat {
        self.pool_depth as nat
    }

    /// The store's clock, read when a date object is created.
    pub closed spec fn clock(self) -> i64 {
        self.now
    }

    /// Identity `e` names an object whose class conforms to `bound`.
    pub open spec fn elem_ok(self, e: usize, bound: u32) -> bool {
        self.contains(e as int) && class_descends(self.class_of(e as int), bound)
    }

    /// The per-object invariant: the recorded ABI matches the class, the
    /// value has the class's shape, and container contents conform to the
    /// container's class bounds.
    pub open spec fn entry_inv(self, i: int) -> bool {
        &&& self.kind_of(i) == class_kind(self.class_of(i))
        &&& value_matches_class(self.class_of(i), self.value_of(i))
        &&& match self.value_of(i) {
            ObjValue::Arr(v) => forall|j: int|
                0 <= j < v@.len() ==> self.elem_ok(#[trigger] v@[j], self.vcls_of(i)),
            ObjValue::Dict(v) => forall|j: int|
                0 <= j < v@.len() ==> self.elem_ok((#[trigger] v@[j]).0, self.kcls_of(i))
                    && self.elem_ok(v@[j].1, self.vcls_of(i)),
            _ => true,
        }
    }

    /// The text of a string-valued object; the empty sequence otherwise.
    pub open spec fn str_of(self, id: int) -> Seq<char> {
        match self.value_of(id) {
            ObjValue::Str(s) => s@,
            _ => Seq::empty(),
        }
    }

    /// Object `i` is the immortal string constant with that identity.
    pub open spec fn static_entry_ok(self, i: int) -> bool {
        &&& self.class_of(i) == CLS_NSSTRING
        &&& self.kind_of(i) == TypeKind::ObjC
        &&& self.value_of(i) is Str
        &&& self.str_of(i) == static_text(i)
    }

    /// The immortal string constants are present with their fixed contents.
    pub open spec fn statics_ok(self) -> bool {
        &&& self.n_objects() >= N_STATICS
        &&& forall|i: int| 0 <= i < N_STATICS ==> #[trigger] self.static_entry_ok(i)
    }

    /// The store invariant, established at creation and preserved by every
    /// operation.
    pub open spec fn inv(self) -> bool {
        &&& self.statics_ok()
        &&& forall|i: int| 0 <= i < self.n_objects() ==> #[trigger] self.entry_inv(i)
    }

    /// No object changed between `old` and `self`, and none was created.
    pub open spec fn objects_unchanged(self, old: Runtime) -> bool {
        &&& self.n_objects() == old.n_objects()
        &&& self.clock() == old.clock()
        &&& forall|j: int|
            #![trigger self.entry_eq(old, j)]
            #![trigger self.class_of(j)]
            #![trigger self.rc(j)]
            #![trigger self.value_of(j)]
            0 <= j < old.n_objects() ==> self.entry_eq(old, j)
    }

    /// Exactly one object, with the next free identity, was added between
    /// `old` and `self`; everything else is unchanged.
    pub open spec fn grown(self, old: Runtime) -> bool {
        &&& self.n_objects() == old.n_objects() + 1
        &&& self.pool_depth() == old.pool_depth()
        &&& self.clock() == old.clock()
        &&& forall|j: int|
            #![trigger self.entry_eq(old, j)]
            #![trigger self.class_of(j)]
            #![trigger self.rc(j)]
            #![trigger self.value_of(j)]
            0 <= j < old.n_objects() ==> self.entry_eq(old, j)
    }

    /// Object `id` is unchanged between `self` and `other`.
    pub open spec fn entry_eq(self, other: Runtime, id: int) -> bool {
        &&& self.rc(id) == other.rc(id)
        &&& self.class_of(id) == other.class_of(id)
        &&& self.kind_of(id) == other.kind_of(id)
        &&& self.value_of(id) == other.value_of(id)
        &&& self.muts_of(id) == other.muts_of(id)
        &&& self.kcls_of(id) == other.kcls_of(id)
        &&& self.vcls_of(id) == other.vcls_of(id)
    }

    /// Everything except object `id` is unchanged between `old` and `self`,
    /// and no object was created or destroyed.
    pub open spec fn same_except(self, old: Runtime, id: int) -> bool {
        &&& self.n_objects() == old.n_objects()
        &&& self.pool_depth() == old.pool_depth()
        &&& self.clock() == old.clock()
        &&& forall|j: int|
            #![trigger self.entry_eq(old, j)]
            #![trigger self.class_of(j)]
            #![trigger self.rc(j)]
            #![trigger self.value_of(j)]
            0 <= j < old.n_objects() && j != id ==> self.entry_eq(old, j)
    }

    /// Object `id` differs from `old` at most in its reference count.
    pub open spec fn only_rc_changed(self, old: Runtime, id: int) -> bool {
        &&& self.class_of(id) == old.class_of(id)
        &&& self.kind_of(id) == old.kind_of(id)
        &&& self.value_of(id) == old.value_of(id)
        &&& self.muts_of(id) == old.muts_of(id)
        &&& self.kcls_of(id) == old.kcls_of(id)
        &&& self.vcls_of(id) == old.vcls_of(id)
    }

    /// Increment the reference count of `id` by one.
    pub(crate) fn retain_id(&mut self, id: usize)
        requires
            old(self).inv(),
            old(self).contains(id as int),
            old(self).rc(id as int) < u64::MAX,
        ensures
            final(self).inv(),
            final(self).same_except(*old(self), id as int),
            final(self).only_rc_changed(*old(self), id as int),
            final(self).rc(id as int) == old(self).rc(id as int) + 1,
    {
        let e = &mut self.objects[id];
        e.rc = e.rc + 1;
        proof {
            self.lemma_rc_change_keeps_inv(*old(self));
        }
    }

    /// Decrement the reference count of `id` by one.
    pub(crate) fn release_id(&mut self, id: usize)
        requires
            old(self).inv(),
            old(self).contains(id as int),
            old(self).rc(id as int) >= 1,
        ensures
            final(self).inv(),
            final(self).same_except(*old(self), id as int),
            final(self).only_rc_changed(*old(self), id as int),
            final(self).rc(id as int) == old(self).rc(id as int) - 1,
    {
        let e = &mut self.objects[id];
        e.rc = e.rc - 1;
        proof {
            self.lemma_rc_change_keeps_inv(*old(self));
        }
    }

    /// An operation that leaves every pre-existing object's class, kind,
    /// value and bounds in place, and whose new objects already satisfy the
    /// per-object invariant, preserves the store invariant.
    proof fn lemma_rc_change_keeps_inv(self, old: Runtime)
        requires
            old.inv(),
            self.n_objects() >= old.n_objects(),
            forall|j: int|
                0 <= j < old.n_objects() ==> #[trigger] self.class_of(j) == old.class_of(j)
                    && self.kind_of(j) == old.kind_of(j) && self.value_of(j) == old.value_of(j)
                    && self.kcls_of(j) == old.kcls_of(j) && self.vcls_of(j) == old.vcls_of(j),
            forall|i: int| old.n_objects() <= i < self.n_objects() ==> #[trigger] self.entry_inv(i),
        ensures
            self.inv(),
    {
        assert forall|i: int| 0 <= i < N_STATICS implies #[trigger] self.static_entry_ok(i) by {
            assert(old.static_entry_ok(i));
            assert(self.class_of(i) == old.class_of(i));
            assert(self.kind_of(i) == old.kind_of(i));
            assert(self.value_of(i) == old.value_of(i));
        }
        assert forall|i: int| 0 <= i < self.n_objects() implies #[trigger] self.entry_inv(i) by {
            if i < old.n_objects() {
                assert(old.entry_inv(i));
            }
        }
    }

    /// Allocate a fresh object with one reference-count increment, owned by
    /// the caller.
    pub(crate) fn allocate(&mut self, class: u32, kcls: u32, vcls: u32, value: ObjValue) -> (id: usize)
        requires
            old(self).inv(),
            value_matches_class(class, value),
            value matches ObjValue::Arr(v) ==> forall|j: int|
                0 <= j < v@.len() ==> old(self).elem_ok(#[trigger] v@[j], vcls),
            value matches ObjValue::Dict(v) ==> forall|j: int|
                0 <= j < v@.len() ==> old(self).elem_ok((#[trigger] v@[j]).0, kcls) && old(
                    self,
                ).elem_ok(v@[j].1, vcls),
        ensures
            final(self).inv(),
            final(self).grown(*old(self)),
            id as int == old(self).n_objects(),
            final(self).rc(id as int) == 1,
            final(self).class_of(id as int) == class,
            final(self).kind_of(id as int) == class_kind(class),
            final(self).value_of(id as int) == value,
            final(self).muts_of(id as int) == 0,
            final(self).kcls_of(id as int) == kcls,
            final(self).vcls_of(id as int) == vcls,
            final(self).pool_depth() == old(self).pool_depth(),
    {
        let id = self.objects.len();
        let kind = class_kind_exec(class);
        self.objects.push(
            ObjEntry { rc: 1, kind, class, value, muts: 0, kcls, vcls },
        );
        proof {
            assert(self.entry_inv(id as int));
            self.lemma_rc_change_keeps_inv(*old(self));
        }
        id
    }

    /// Enter an autorelease-pool scope.
    pub(crate) fn pool_push(&mut self)
        requires
            old(self).inv(),
            old(self).pool_depth() < usize::MAX,
        ensures
            final(self).inv(),
            final(self).objects_unchanged(*old(self)),
            final(self).pool_depth() == old(self).pool_depth() + 1,
    {
        self.pool_depth = self.pool_depth + 1;
        proof {
            self.lemma_rc_change_keeps_inv(*old(self));
        }
    }

    /// Leave an autorelease-pool scope.
    pub(crate) fn pool_pop(&mut self)
        requires
            old(self).inv(),
            old(self).pool_depth() >= 1,
        ensures
            final(self).inv(),
            final(self).objects_unchanged(*old(self)),
            final(self).pool_depth() == old(self).pool_depth() - 1,
    {
        self.pool_depth = self.pool_depth - 1;
        proof {
            self.lemma_rc_change_keeps_inv(*old(self));
        }
    }

    /// The reference count the store records for `id`.
    pub fn rc_count(&self, id: usize) -> (n: u64)
        requires
            self.contains(id as int),
        ensures
            n == self.rc(id as int),
    {
        self.objects[id].rc
    }

    /// The class tag the store records for `id`.
    pub fn class_tag(&self, id: usize) -> (c: u32)
        requires
            self.contains(id as int),
        ensures
            c == self.class_of(id as int),
    {
        self.objects[id].class
    }

    /// Protocol-level object equality: identity, or equal content within the
    /// same equality family.
    pub open spec fn obj_eq(self, a: int, b: int) -> bool {
        a == b || (class_family(self.class_of(a)) == class_family(self.class_of(b))
            && class_family(self.class_of(a)) != FAM_IDENTITY && val_eq(
            self.value_of(a),
            self.value_of(b),
        ))
    }

    /// Decide protocol-level equality of two objects, as the native
    /// `isEqual:` would.
    pub fn ids_equal(&self, a: usize, b: usize) -> (r: bool)
        requires
            self.contains(a as int),
            self.contains(b as int),
        ensures
            r == self.obj_eq(a as int, b as int),
    {
        if a == b {
            return true;
        }
        let fa = class_family_exec(self.objects[a].class);
        let fb = class_family_exec(self.objects[b].class);
        if fa != fb || fa == FAM_IDENTITY {
            return false;
        }
        value_eq(&self.objects[a].value, &self.objects[b].value)
    }
}

/// Append one immortal string constant to the object table under
/// construction.
fn push_static_string(objects: &mut Vec<ObjEntry>, text: &str)
    ensures
        final(objects)@.len() == old(objects)@.len() + 1,
        forall|j: int| 0 <= j < old(objects)@.len() ==> final(objects)@[j] == old(objects)@[j],
        final(objects)@[old(objects)@.len() as int].rc == 1,
        final(objects)@[old(objects)@.len() as int].kind == TypeKind::ObjC,
        final(objects)@[old(objects)@.len() as int].class == CLS_NSSTRING,
        final(objects)@[old(objects)@.len() as int].value matches ObjValue::Str(s) && s@ == text@,
        final(objects)@[old(objects)@.len() as int].muts == 0,
{
    objects.push(
        ObjEntry {
            rc: 1,
            kind: TypeKind::ObjC,
            class: CLS_NSSTRING,
            value: ObjValue::Str(text.to_owned()),
            muts: 0,
            kcls: CLS_NSOBJECT,
            vcls: CLS_NSOBJECT,
        },
    );
}

impl Runtime {
    /// The element identities of an array-valued object; empty otherwise.
    pub open spec fn elems_of(self, id: int) -> Seq<usize> {
        match self.value_of(id) {
            ObjValue::Arr(v) => v@,
            _ => Seq::empty(),
        }
    }

    /// The key/value identity pairs of a dictionary-valued object; empty
    /// otherwise.
    pub open spec fn entries_of(self, id: int) -> Seq<(usize, usize)> {
        match self.value_of(id) {
            ObjValue::Dict(v) => v@,
            _ => Seq::empty(),
        }
    }

    /// The numeric content of a number- or date-valued object; zero
    /// otherwise.
    pub open spec fn num_of(self, id: int) -> i128 {
        match self.value_of(id) {
            ObjValue::Int(i) => i,
            _ => 0,
        }
    }

    /// The media code of a format-description object; zero otherwise.
    pub open spec fn code_of(self, id: int) -> u32 {
        match self.value_of(id) {
            ObjValue::Code(c) => c,
            _ => 0,
        }
    }

    /// Object `id` differs from `old` at most in its value and mutation
    /// counter.
    pub open spec fn only_contents_changed(self, old: Runtime, id: int) -> bool {
        &&& self.rc(id) == old.rc(id)
        &&& self.class_of(id) == old.class_of(id)
        &&& self.kind_of(id) == old.kind_of(id)
        &&& self.kcls_of(id) == old.kcls_of(id)
        &&& self.vcls_of(id) == old.vcls_of(id)
    }

    /// The position of the first entry of dictionary `id` whose key is
    /// protocol-equal to `k`, if any.
    pub open spec fn find_key(self, s: Seq<(usize, usize)>, k: int) -> Option<int>
        decreases s.len(),
    {
        if s.len() == 0 {
            None
        } else if self.obj_eq(s[0].0 as int, k) {
            Some(0int)
        } else {
            match self.find_key(s.drop_first(), k) {
                None => None,
                Some(i) => Some(i + 1),
            }
        }
    }

    /// A successful key search lands inside the entry list.
    pub proof fn lemma_find_key_bounds(self, s: Seq<(usize, usize)>, k: int)
        ensures
            self.find_key(s, k) matches Some(i) ==> 0 <= i < s.len(),
        decreases s.len(),
    {
        if s.len() > 0 && !self.obj_eq(s[0].0 as int, k) {
            self.lemma_find_key_bounds(s.drop_first(), k);
        }
    }

    /// What a dictionary lookup of key `k` in object `id` returns.
    pub open spec fn dict_lookup(self, id: int, k: int) -> Option<usize> {
        match self.find_key(self.entries_of(id), k) {
            None => None,
            Some(i) => Some(self.entries_of(id)[i].1),
        }
    }

    /// An operation that rewrote the non-string value of object `id`, and
    /// nothing else, preserves the store invariant provided the rewritten
    /// entry satisfies the per-object invariant again.
    proof fn lemma_mutation_keeps_inv(self, old: Runtime, id: int)
        requires
            old.inv(),
            self.n_objects() == old.n_objects(),
            0 <= id < old.n_objects(),
            !(old.value_of(id) is Str),
            forall|j: int|
                0 <= j < old.n_objects() && j != id ==> #[trigger] self.class_of(j)
                    == old.class_of(j) && self.kind_of(j) == old.kind_of(j) && self.value_of(j)
                    == old.value_of(j) && self.kcls_of(j) == old.kcls_of(j) && self.vcls_of(j)
                    == old.vcls_of(j),
            self.class_of(id) == old.class_of(id),
            self.kind_of(id) == old.kind_of(id),
            self.kcls_of(id) == old.kcls_of(id),
            self.vcls_of(id) == old.vcls_of(id),
            self.entry_inv(id),
        ensures
            self.inv(),
    {
        assert forall|i: int| 0 <= i < N_STATICS implies #[trigger] self.static_entry_ok(i) by {
            assert(old.static_entry_ok(i));
            if i != id {
                assert(self.class_of(i) == old.class_of(i));
                assert(self.kind_of(i) == old.kind_of(i));
                assert(self.value_of(i) == old.value_of(i));
            }
        }
        assert forall|i: int| 0 <= i < self.n_objects() implies #[trigger] self.entry_inv(i) by {
            if i != id {
                assert(old.entry_inv(i));
                assert(self.class_of(i) == old.class_of(i));
                assert(self.value_of(i) == old.value_of(i));
            }
        }
    }

    /// The length of array `id`.
    pub fn arr_len(&self, id: usize) -> (n: usize)
        requires
            self.contains(id as int),
        ensures
            n == self.elems_of(id as int).len(),
    {
        match &self.objects[id].value {
            ObjValue::Arr(v) => v.len(),
            _ => 0,
        }
    }

    /// The element identity at position `i` of array `id`.
    pub fn arr_get(&self, id: usize, i: usize) -> (e: usize)
        requires
            self.contains(id as int),
            i < self.elems_of(id as int).len(),
        ensures
            e == self.elems_of(id as int)[i as int],
    {
        match &self.objects[id].value {
            ObjValue::Arr(v) => v[i],
            _ => 0,
        }
    }

    /// A copy of the element identities of array `id`.
    pub(crate) fn arr_elems_copy(&self, id: usize) -> (v: Vec<usize>)
        requires
            self.contains(id as int),
        ensures
            v@ == self.elems_of(id as int),
    {
        let mut out: Vec<usize> = Vec::new();
        let n = self.arr_len(id);
        let mut i: usize = 0;
        while i < n
            invariant
                i <= n,
                n == self.elems_of(id as int).len(),
                self.contains(id as int),
                out@.len() == i as int,
                forall|j: int| 0 <= j < i ==> out@[j] == self.elems_of(id as int)[j],
            decreases n - i,
        {
            let e = self.arr_get(id, i);
            out.push(e);
            i = i + 1;
        }
        proof {
            assert(out@ =~= self.elems_of(id as int));
        }
        out
    }

    /// Append element `e` to mutable array `id`, bumping its mutation
    /// counter; the array does not give the element up again until it is
    /// removed, so the reference stays valid while the array lives.
    pub(crate) fn arr_push(&mut self, id: usize, e: usize)
        requires
            old(self).inv(),
            old(self).contains(id as int),
            old(self).value_of(id as int) is Arr,
            old(self).elem_ok(e, old(self).vcls_of(id as int)),
            old(self).muts_of(id as int) < u64::MAX,
        ensures
            final(self).inv(),
            final(self).same_except(*old(self), id as int),
            final(self).only_contents_changed(*old(self), id as int),
            final(self).value_of(id as int) is Arr,
            final(self).elems_of(id as int) == old(self).elems_of(id as int).push(e),
            final(self).muts_of(id as int) == old(self).muts_of(id as int) + 1,
    {
        let entry = &mut self.objects[id];
        match &mut entry.value {
            ObjValue::Arr(v) => {
                v.push(e);
            },
            _ => {},
        }
        entry.muts = entry.muts + 1;
        proof {
            assert(self.entry_inv(id as int)) by {
                assert(old(self).entry_inv(id as int));
            }
            self.lemma_mutation_keeps_inv(*old(self), id as int);
        }
    }

    /// The number of entries of dictionary `id`.
    pub fn dict_len(&self, id: usize) -> (n: usize)
        requires
            self.contains(id as int),
        ensures
            n == self.entries_of(id as int).len(),
    {
        match &self.objects[id].value {
            ObjValue::Dict(v) => v.len(),
            _ => 0,
        }
    }

    /// Look key `k` up in dictionary `id` by protocol equality, returning
    /// the identity of the stored value if any entry's key matches.
    pub fn dict_get(&self, id: usize, k: usize) -> (r: Option<usize>)
        requires
            self.inv(),
            self.contains(id as int),
            self.contains(k as int),
        ensures
            r == self.dict_lookup(id as int, k as int),
    {
        let ghost s = self.entries_of(id as int);
        proof {
            assert(s.skip(0) =~= s);
        }
        match &self.objects[id].value {
            ObjValue::Dict(v) => {
                let n = v.len();
                let mut i: usize = 0;
                while i < n
                    invariant
                        i <= n,
                        self.inv(),
                        self.contains(id as int),
                        self.contains(k as int),
                        self.value_of(id as int) matches ObjValue::Dict(w) && w@ == s,
                        v@ == s,
                        n == s.len(),
                        self.find_key(s.skip(i as int), k as int) matches Some(x) ==> self.find_key(
                            s,
                            k as int,
                        ) == Some(x + i),
                        self.find_key(s.skip(i as int), k as int) is None ==> self.find_key(
                            s,
                            k as int,
                        ) is None,
                    decreases n - i,
                {
                    let key_id = v[i].0;
                    proof {
                        assert(self.entry_inv(id as int));
                        assert(s[i as int].0 < self.n_objects());
                    }
                    if self.ids_equal(key_id, k) {
                        proof {
                            assert(s.skip(i as int)[0] == s[i as int]);
                            assert(self.find_key(s.skip(i as int), k as int) == Some(0int));
                        }
                        return Some(v[i].1);
                    }
                    proof {
                        assert(s.skip(i as int)[0] == s[i as int]);
                        assert(s.skip(i as int).drop_first() =~= s.skip(i as int + 1));
                    }
                    i = i + 1;
                }
                proof {
                    assert(s.skip(n as int) =~= Seq::empty());
                }
                None
            },
            _ => None,
        }
    }

    /// Insert or replace: if some entry's key is protocol-equal to `k`,
    /// its value becomes `val`; otherwise the pair is appended. The
    /// mutation counter is bumped either way.
    pub(crate) fn dict_set(&mut self, id: usize, k: usize, val: usize)
        requires
            old(self).inv(),
            old(self).contains(id as int),
            old(self).value_of(id as int) is Dict,
            old(self).elem_ok(k, old(self).kcls_of(id as int)),
            old(self).elem_ok(val, old(self).vcls_of(id as int)),
            old(self).muts_of(id as int) < u64::MAX,
        ensures
            final(self).inv(),
            final(self).same_except(*old(self), id as int),
            final(self).only_contents_changed(*old(self), id as int),
            final(self).value_of(id as int) is Dict,
            final(self).muts_of(id as int) == old(self).muts_of(id as int) + 1,
            final(self).entries_of(id as int) == match old(self).find_key(
                old(self).entries_of(id as int),
                k as int,
            ) {
                Some(i) => old(self).entries_of(id as int).update(i, (k, val)),
                None => old(self).entries_of(id as int).push((k, val)),
            },
    {
        let ghost s = old(self).entries_of(id as int);
        let pos = self.dict_find_pos(id, k);
        let entry = &mut self.objects[id];
        match &mut entry.value {
            ObjValue::Dict(v) => {
                match pos {
                    Some(i) => {
                        v[i] = (k, val);
                    },
                    None => {
                        v.push((k, val));
                    },
                }
            },
            _ => {},
        }
        entry.muts = entry.muts + 1;
        proof {
            assert(self.entry_inv(id as int)) by {
                assert(old(self).entry_inv(id as int));
            }
            self.lemma_mutation_keeps_inv(*old(self), id as int);
        }
    }

    /// The position of the first entry of dictionary `id` whose key is
    /// protocol-equal to `k`.
    fn dict_find_pos(&self, id: usize, k: usize) -> (r: Option<usize>)
        requires
            self.inv(),
            self.contains(id as int),
            self.contains(k as int),
        ensures
            match r {
                Some(i) => self.find_key(self.entries_of(id as int), k as int) == Some(i as int)
                    && i < self.entries_of(id as int).len(),
                None => self.find_key(self.entries_of(id as int), k as int) is None,
            },
    {
        let ghost s = self.entries_of(id as int);
        proof {
            assert(s.skip(0) =~= s);
        }
        match &self.objects[id].value {
            ObjValue::Dict(v) => {
                let n = v.len();
                let mut i: usize = 0;
                while i < n
                    invariant
                        i <= n,
                        self.inv(),
                        self.contains(id as int),
                        self.contains(k as int),
                        self.value_of(id as int) matches ObjValue::Dict(w) && w@ == s,
                        v@ == s,
                        n == s.len(),
                        self.find_key(s.skip(i as int), k as int) matches Some(x) ==> self.find_key(
                            s,
                            k as int,
                        ) == Some(x + i),
                        self.find_key(s.skip(i as int), k as int) is None ==> self.find_key(
                            s,
                            k as int,
                        ) is None,
                    decreases n - i,
                {
                    let key_id = v[i].0;
                    proof {
                        assert(self.entry_inv(id as int));
                    }
                    if self.ids_equal(key_id, k) {
                        proof {
                            assert(s.skip(i as int)[0] == s[i as int]);
                            assert(self.find_key(s.skip(i as int), k as int) == Some(0int));
                        }
                        return Some(i);
                    }
                    proof {
                        assert(s.skip(i as int)[0] == s[i as int]);
                        assert(s.skip(i as int).drop_first() =~= s.skip(i as int + 1));
                    }
                    i = i + 1;
                }
                proof {
                    assert(s.skip(n as int) =~= Seq::empty());
                }
                None
            },
            _ => None,
        }
    }

    /// Remove the entry whose key is protocol-equal to `k`, if any; the
    /// mutation counter is bumped either way.
    pub(crate) fn dict_remove(&mut self, id: usize, k: usize)
        requires
            old(self).inv(),
            old(self).contains(id as int),
            old(self).contains(k as int),
            old(self).value_of(id as int) is Dict,
            old(self).muts_of(id as int) < u64::MAX,
        ensures
            final(self).inv(),
            final(self).same_except(*old(self), id as int),
            final(self).only_contents_changed(*old(self), id as int),
            final(self).value_of(id as int) is Dict,
            final(self).muts_of(id as int) == old(self).muts_of(id as int) + 1,
            final(self).entries_of(id as int) == match old(self).find_key(
                old(self).entries_of(id as int),
                k as int,
            ) {
                Some(i) => old(self).entries_of(id as int).remove(i),
                None => old(self).entries_of(id as int),
            },
    {
        let pos = self.dict_find_pos(id, k);
        let entry = &mut self.objects[id];
        match &mut entry.value {
            ObjValue::Dict(v) => {
                match pos {
                    Some(i) => {
                        v.remove(i);
                    },
                    None => {},
                }
            },
            _ => {},
        }
        entry.muts = entry.muts + 1;
        proof {
            assert(self.entry_inv(id as int)) by {
                assert(old(self).entry_inv(id as int));
                match self.value_of(id as int) {
                    ObjValue::Dict(v) => {
                        assert forall|j: int|
                            0 <= j < v@.len() implies self.elem_ok(
                            (#[trigger] v@[j]).0,
                            self.kcls_of(id as int),
                        ) && self.elem_ok(v@[j].1, self.vcls_of(id as int)) by {
                            let s0 = old(self).entries_of(id as int);
                            assert(exists|x: int|
                                0 <= x < s0.len() && s0[x] == v@[j] && old(self).elem_ok(
                                    (#[trigger] s0[x]).0,
                                    old(self).kcls_of(id as int),
                                ));
                        }
                    },
                    _ => {},
                }
            }
            self.lemma_mutation_keeps_inv(*old(self), id as int);
        }
    }

    /// Drop every entry of dictionary `id`; the mutation counter is
    /// bumped.
    pub(crate) fn dict_clear(&mut self, id: usize)
        requires
            old(self).inv(),
            old(self).contains(id as int),
            old(self).value_of(id as int) is Dict,
            old(self).muts_of(id as int) < u64::MAX,
        ensures
            final(self).inv(),
            final(self).same_except(*old(self), id as int),
            final(self).only_contents_changed(*old(self), id as int),
            final(self).value_of(id as int) is Dict,
            final(self).muts_of(id as int) == old(self).muts_of(id as int) + 1,
            final(self).entries_of(id as int) == Seq::<(usize, usize)>::empty(),
    {
        let entry = &mut self.objects[id];
        match &mut entry.value {
            ObjValue::Dict(v) => {
                v.clear();
            },
            _ => {},
        }
        entry.muts = entry.muts + 1;
        proof {
            assert(self.entry_inv(id as int)) by {
                assert(old(self).entry_inv(id as int));
            }
            self.lemma_mutation_keeps_inv(*old(self), id as int);
        }
    }

    /// A copy of the text of string-valued object `id`.
    pub fn str_value(&self, id: usize) -> (r: String)
        requires
            self.contains(id as int),
            self.value_of(id as int) is Str,
        ensures
            r@ == self.str_of(id as int),
    {
        match &self.objects[id].value {
            ObjValue::Str(s) => s.clone(),
            _ => String::new(),
        }
    }

    /// The numeric content of number- or date-valued object `id`.
    pub fn num_value(&self, id: usize) -> (r: i128)
        requires
            self.contains(id as int),
        ensures
            r == self.num_of(id as int),
    {
        match &self.objects[id].value {
            ObjValue::Int(i) => *i,
            _ => 0,
        }
    }

    /// The media code of format-description object `id`.
    pub fn code_value(&self, id: usize) -> (r: u32)
        requires
            self.contains(id as int),
        ensures
            r == self.code_of(id as int),
    {
        match &self.objects[id].value {
            ObjValue::Code(c) => *c,
            _ => 0,
        }
    }

    /// The protocol-level hash of object `id`: derived from the content
    /// for value families, from the identity otherwise. Objects that are
    /// protocol-equal hash alike.
    pub open spec fn obj_hash(self, id: int) -> usize {
        match self.value_of(id) {
            ObjValue::Plain => id as usize,
            ObjValue::Str(s) => s@.len() as usize,
            ObjValue::Int(i) => i as usize,
            ObjValue::Arr(v) => v@.len() as usize,
            ObjValue::Dict(v) => v@.len() as usize,
            ObjValue::Code(c) => c as usize,
        }
    }

    /// Compute the protocol-level hash of object `id`.
    pub fn hash_value(&self, id: usize) -> (h: usize)
        requires
            self.contains(id as int),
        ensures
            h == self.obj_hash(id as int),
    {
        match &self.objects[id].value {
            ObjValue::Plain => id,
            ObjValue::Str(s) => s.as_str().unicode_len(),
            ObjValue::Int(i) => {
                #[verifier::truncate] (*i as usize)
            },
            ObjValue::Arr(v) => v.len(),
            ObjValue::Dict(v) => v.len(),
            ObjValue::Code(c) => *c as usize,
        }
    }

    /// The mutation counter the store records for `id`.
    pub fn muts_value(&self, id: usize) -> (m: u64)
        requires
            self.contains(id as int),
        ensures
            m == self.muts_of(id as int),
    {
        self.objects[id].muts
    }

    /// How many autorelease-pool scopes are open.
    pub fn pool_count(&self) -> (n: usize)
        ensures
            n == self.pool_depth(),
    {
        self.pool_depth
    }

    /// What the store's clock reads.
    pub fn clock_now(&self) -> (t: i64)
        ensures
            t == self.clock(),
    {
        self.now
    }

    /// Set the store's clock, leaving every object untouched.
    pub fn set_clock(&mut self, t: i64)
        requires
            old(self).inv(),
        ensures
            final(self).inv(),
            final(self).clock() == t,
            final(self).n_objects() == old(self).n_objects(),
            final(self).pool_depth() == old(self).pool_depth(),
            forall|j: int| 0 <= j < old(self).n_objects() ==> final(self).entry_eq(*old(self), j),
    {
        self.now = t;
        proof {
            self.lemma_rc_change_keeps_inv(*old(self));
        }
    }
}

/// The name of the class with tag `c`.
pub open spec fn spec_class_name(c: u32) -> Seq<char> {
    if c == CLS_NSOBJECT {
        "NSObject"@
    } else if c == CLS_NSSTRING {
        "NSString"@
    } else if c == CLS_NSMUTABLESTRING {
        "NSMutableString"@
    } else if c == CLS_NSARRAY {
        "NSArray"@
    } else if c == CLS_NSMUTABLEARRAY {
        "NSMutableArray"@
    } else if c == CLS_NSDICTIONARY {
        "NSDictionary"@
    } else if c == CLS_NSMUTABLEDICTIONARY {
        "NSMutableDictionary"@
    } else if c == CLS_NSDATE {
        "NSDate"@
    } else if c == CLS_NSNUMBER {
        "NSNumber"@
    } else if c == CLS_NSERROR {
        "NSError"@
    } else if c == CLS_NSURL {
        "NSURL"@
    } else if c == CLS_AVASSET {
        "AVAsset"@
    } else if c == CLS_AVURLASSET {
        "AVURLAsset"@
    } else if c == CLS_AVASSETTRACK {
        "AVAssetTrack"@
    } else if c == CLS_AVASSETREADER {
        "AVAssetReader"@
    } else if c == CLS_AVASSETREADEROUTPUT {
        "AVAssetReaderOutput"@
    } else if c == CLS_AVASSETREADERTRACKOUTPUT {
        "AVAssetReaderTrackOutput"@
    } else if c == CLS_AVASSETREADERSAMPLEREFERENCEOUTPUT {
        "AVAssetReaderSampleReferenceOutput"@
    } else if c == CLS_AVPLAYERITEM {
        "AVPlayerItem"@
    } else if c == CLS_AVPLAYER {
        "AVPlayer"@
    } else if c == CLS_AVAUDIOPLAYER {
        "AVAudioPlayer"@
    } else if c == CLS_CMFORMATDESCRIPTION {
        "CMFormatDescription"@
    } else {
        ""@
    }
}

/// The name of the class with tag `c`, as fresh text.
pub fn class_name_string(c: u32) -> (r: String)
    ensures
        r@ == spec_class_name(c),
{
    if c == CLS_NSOBJECT {
        "NSObject".to_owned()
    } else if c == CLS_NSSTRING {
        "NSString".to_owned()
    } else if c == CLS_NSMUTABLESTRING {
        "NSMutableString".to_owned()
    } else if c == CLS_NSARRAY {
        "NSArray".to_owned()
    } else if c == CLS_NSMUTABLEARRAY {
        "NSMutableArray".to_owned()
    } else if c == CLS_NSDICTIONARY {
        "NSDictionary".to_owned()
    } else if c == CLS_NSMUTABLEDICTIONARY {
        "NSMutableDictionary".to_owned()
    } else if c == CLS_NSDATE {
        "NSDate".to_owned()
    } else if c == CLS_NSNUMBER {
        "NSNumber".to_owned()
    } else if c == CLS_NSERROR {
        "NSError".to_owned()
    } else if c == CLS_NSURL {
        "NSURL".to_owned()
    } else if c == CLS_AVASSET {
        "AVAsset".to_owned()
    } else if c == CLS_AVURLASSET {
        "AVURLAsset".to_owned()
    } else if c == CLS_AVASSETTRACK {
        "AVAssetTrack".to_owned()
    } else if c == CLS_AVASSETREADER {
        "AVAssetReader".to_owned()
    } else if c == CLS_AVASSETREADEROUTPUT {
        "AVAssetReaderOutput".to_owned()
    } else if c == CLS_AVASSETREADERTRACKOUTPUT {
        "AVAssetReaderTrackOutput".to_owned()
    } else if c == CLS_AVASSETREADERSAMPLEREFERENCEOUTPUT {
        "AVAssetReaderSampleReferenceOutput".to_owned()
    } else if c == CLS_AVPLAYERITEM {
        "AVPlayerItem".to_owned()
    } else if c == CLS_AVPLAYER {
        "AVPlayer".to_owned()
    } else if c == CLS_AVAUDIOPLAYER {
        "AVAudioPlayer".to_owned()
    } else if c == CLS_CMFORMATDESCRIPTION {
        "CMFormatDescription".to_owned()
    } else {
        "".to_owned()
    }
}

/// The parent of a class tag, as an executable lookup.
pub fn class_parent_exec(c: u32) -> (p: u32)
    ensures
        p == class_parent(c),
{
    if c == CLS_NSMUTABLESTRING {
        CLS_NSSTRING
    } else if c == CLS_NSMUTABLEARRAY {
        CLS_NSARRAY
    } else if c == CLS_NSMUTABLEDICTIONARY {
        CLS_NSDICTIONARY
    } else if c == CLS_AVURLASSET {
        CLS_AVASSET
    } else if c == CLS_AVASSETREADERTRACKOUTPUT {
        CLS_AVASSETREADEROUTPUT
    } else if c == CLS_AVASSETREADERSAMPLEREFERENCEOUTPUT {
        CLS_AVASSETREADEROUTPUT
    } else if c == CLS_CMFORMATDESCRIPTION {
        CLS_CMFORMATDESCRIPTION
    } else {
        CLS_NSOBJECT
    }
}

/// Decide whether class `c` is or descends from class `d`, walking the
/// parent chain as the native `isKindOfClass:` would.
pub fn class_descends_exec(c: u32, d: u32) -> (r: bool)
    ensures
        r == class_descends(c, d),
{
    let mut cur: u32 = c;
    loop
        invariant
            class_descends(c, d) == class_descends(cur, d),
        decreases cur,
    {
        if cur == d {
            return true;
        }
        let p = class_parent_exec(cur);
        if p >= cur {
            return false;
        }
        cur = p;
    }
}

/// The refcounting ABI governing a class, as an executable lookup.
pub fn class_kind_exec(c: u32) -> (k: TypeKind)
    ensures
        k == class_kind(c),
{
    if c == CLS_CMFORMATDESCRIPTION {
        TypeKind::CF
    } else {
        TypeKind::ObjC
    }
}

/// The equality family of a class tag, as an executable lookup.
pub fn class_family_exec(c: u32) -> (f: u32)
    ensures
        f == class_family(c),
{
    if c == CLS_NSSTRING || c == CLS_NSMUTABLESTRING {
        FAM_STRING
    } else if c == CLS_NSURL {
        FAM_URL
    } else if c == CLS_NSARRAY || c == CLS_NSMUTABLEARRAY {
        FAM_ARRAY
    } else if c == CLS_NSDICTIONARY || c == CLS_NSMUTABLEDICTIONARY {
        FAM_DICTIONARY
    } else if c == CLS_NSNUMBER {
        FAM_NUMBER
    } else if c == CLS_NSDATE {
        FAM_DATE
    } else if c == CLS_CMFORMATDESCRIPTION {
        FAM_FORMAT
    } else {
        FAM_IDENTITY
    }
}

/// Decide value equality of two object values.
pub fn value_eq(a: &ObjValue, b: &ObjValue) -> (r: bool)
    ensures
        r == val_eq(*a, *b),
{
    match (a, b) {
        (ObjValue::Plain, ObjValue::Plain) => true,
        (ObjValue::Str(x), ObjValue::Str(y)) => x.eq(y),
        (ObjValue::Int(x), ObjValue::Int(y)) => *x == *y,
        (ObjValue::Arr(x), ObjValue::Arr(y)) => id_vecs_equal(x, y),
        (ObjValue::Dict(x), ObjValue::Dict(y)) => pair_vecs_equal(x, y),
        (ObjValue::Code(x), ObjValue::Code(y)) => x == y,
        _ => false,
    }
}

/// Decide equality of two identity lists.
fn id_vecs_equal(a: &Vec<usize>, b: &Vec<usize>) -> (r: bool)
    ensures
        r == (a@ == b@),
{
    if a.len() != b.len() {
        assert(a@ != b@);
        return false;
    }
    let mut i: usize = 0;
    while i < a.len()
        invariant
            i <= a.len(),
            a@.len() == b@.len(),
            forall|j: int| 0 <= j < i ==> a@[j] == b@[j],
        decreases a.len() - i,
    {
        if a[i] != b[i] {
            assert(a@ != b@);
            return false;
        }
        i = i + 1;
    }
    proof {
        assert(a@ =~= b@);
    }
    true
}

/// Decide equality of two identity pair lists.
fn pair_vecs_equal(a: &Vec<(usize, usize)>, b: &Vec<(usize, usize)>) -> (r: bool)
    ensures
        r == (a@ == b@),
{
    if a.len() != b.len() {
        assert(a@ != b@);
        return false;
    }
    let mut i: usize = 0;
    while i < a.len()
        invariant
            i <= a.len(),
            a@.len() == b@.len(),
            forall|j: int| 0 <= j < i ==> a@[j] == b@[j],
        decreases a.len() - i,
    {
        if a[i].0 != b[i].0 || a[i].1 != b[i].1 {
            assert(a@[i as int] != b@[i as int]);
            assert(a@ != b@);
            return false;
        }
        i = i + 1;
    }
    proof {
        assert(a@ =~= b@);
    }
    true
}

} // verus!
