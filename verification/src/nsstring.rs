//! String classes: immutable and mutable strings, the static-string
//! wrapper, and the text operations of the string interface.
//!
//! A string object's length, as the native interface reports it, counts
//! UTF-16 code units, not characters: a character beyond the basic plane
//! contributes two units.

use vstd::prelude::*;
use vstd::string::StrSliceExecFns;

use crate::base::IsKindOf;
use crate::base::ObjCClass;
use crate::base::Ownership;
use crate::base::Ptr;
use crate::base::RawClassPtr;
use crate::base::RawObjPtr;
use crate::base::Retained;
use crate::base::Static;
use crate::base::Type;
use crate::foundation::NSObjectInterface;
use crate::foundation::NSObjectProtocol;
use crate::runtime::class_descends;
use crate::runtime::class_family;
use crate::runtime::lemma_descends_value_family;
use crate::runtime::spec_class_name;
use crate::runtime::ObjValue;
use crate::runtime::Runtime;
use crate::runtime::TypeKind;
use crate::runtime::CLS_NSMUTABLESTRING;
use crate::runtime::CLS_NSOBJECT;
use crate::runtime::CLS_NSSTRING;
use crate::runtime::FAM_STRING;

verus! {

/// How many UTF-16 code units one character occupies.
pub open spec fn utf16_units(c: char) -> nat {
    if (c as u32) <= 0xFFFF {
        1
    } else {
        2
    }
}

/// The length of a text in UTF-16 code units.
pub open spec fn utf16_len(s: Seq<char>) -> nat
    decreases s.len(),
{
    if s.len() == 0 {
        0
    } else {
        utf16_units(s[0]) + utf16_len(s.drop_first())
    }
}

/// Appending one character adds that character's unit count.
pub proof fn lemma_utf16_len_push(s: Seq<char>, c: char)
    ensures
        utf16_len(s.push(c)) == utf16_len(s) + utf16_units(c),
    decreases s.len(),
{
    if s.len() == 0 {
        assert(s.push(c)[0] == c);
        assert(s.push(c).drop_first() =~= Seq::<char>::empty());
        assert(utf16_len(Seq::<char>::empty()) == 0);
        assert(utf16_len(s.push(c)) == utf16_units(c) + utf16_len(s.push(c).drop_first()));
        assert(utf16_len(s) == 0);
    } else {
        lemma_utf16_len_push(s.drop_first(), c);
        assert(s.push(c)[0] == s[0]);
        assert(s.push(c).drop_first() =~= s.drop_first().push(c));
        assert(utf16_len(s.push(c)) == utf16_units(s[0]) + utf16_len(s.push(c).drop_first()));
        assert(utf16_len(s) == utf16_units(s[0]) + utf16_len(s.drop_first()));
    }
}

/// The UTF-16 code units of one character: one unit in the basic plane,
/// a surrogate pair beyond it.
pub open spec fn utf16_code_units(c: char) -> Seq<u16> {
    if (c as u32) <= 0xFFFF {
        seq![c as u16]
    } else {
        seq![
            (0xD800 + ((c as u32) - 0x10000) / 0x400) as u16,
            (0xDC00 + ((c as u32) - 0x10000) % 0x400) as u16,
        ]
    }
}

/// The UTF-16 encoding of a text, unit by unit.
pub open spec fn utf16_seq(s: Seq<char>) -> Seq<u16>
    decreases s.len(),
{
    if s.len() == 0 {
        Seq::empty()
    } else {
        utf16_code_units(s[0]) + utf16_seq(s.drop_first())
    }
}

/// Appending one character appends that character's code units.
pub proof fn lemma_utf16_seq_push(s: Seq<char>, c: char)
    ensures
        utf16_seq(s.push(c)) == utf16_seq(s) + utf16_code_units(c),
    decreases s.len(),
{
    if s.len() == 0 {
        assert(s.push(c)[0] == c);
        assert(s.push(c).drop_first() =~= Seq::<char>::empty());
        assert(utf16_seq(s.push(c)) == utf16_code_units(c) + utf16_seq(Seq::<char>::empty()));
        assert(utf16_code_units(c) + Seq::<u16>::empty() =~= Seq::<u16>::empty()
            + utf16_code_units(c));
    } else {
        lemma_utf16_seq_push(s.drop_first(), c);
        assert(s.push(c)[0] == s[0]);
        assert(s.push(c).drop_first() =~= s.drop_first().push(c));
        assert(utf16_seq(s.push(c)) == utf16_code_units(s[0]) + utf16_seq(s.drop_first().push(c)));
        assert(utf16_seq(s) == utf16_code_units(s[0]) + utf16_seq(s.drop_first()));
        assert(utf16_code_units(s[0]) + (utf16_seq(s.drop_first()) + utf16_code_units(c)) =~= (
        utf16_code_units(s[0]) + utf16_seq(s.drop_first())) + utf16_code_units(c));
    }
}

/// The encoding has exactly as many units as the length counts.
pub proof fn lemma_utf16_seq_len(s: Seq<char>)
    ensures
        utf16_seq(s).len() == utf16_len(s),
    decreases s.len(),
{
    if s.len() > 0 {
        lemma_utf16_seq_len(s.drop_first());
    }
}

/// An identifier for the byte encodings the native string interface
/// accepts.
#[derive(Clone, Copy, PartialEq, Eq, Structural)]
pub struct NSStringEncoding(pub u64);

impl NSStringEncoding {
    /// The ASCII encoding.
    pub fn ascii() -> (e: NSStringEncoding)
        ensures
            e.0 == 1,
    {
        NSStringEncoding(1)
    }

    /// The UTF-8 encoding.
    pub fn utf8() -> (e: NSStringEncoding)
        ensures
            e.0 == 4,
    {
        NSStringEncoding(4)
    }

    /// The UTF-16 encoding.
    pub fn utf16() -> (e: NSStringEncoding)
        ensures
            e.0 == 10,
    {
        NSStringEncoding(10)
    }

    /// The ISO Latin 1 encoding.
    pub fn iso_latin1() -> (e: NSStringEncoding)
        ensures
            e.0 == 5,
    {
        NSStringEncoding(5)
    }

    /// The UTF-32 encoding.
    pub fn utf32() -> (e: NSStringEncoding)
        ensures
            e.0 == 0x8c000100,
    {
        NSStringEncoding(0x8c000100)
    }
}

/// Types of string class, whose instances carry text.
pub trait NSStringInterface: NSObjectInterface {
    /// Create a string object holding the given text. The caller owns the
    /// one increment the new object starts with.
    fn new_with_str(rt: &mut Runtime, text: &str) -> (p: Ptr<Self, Retained>)
        requires
            old(rt).inv(),
        ensures
            final(rt).inv(),
            final(rt).grown(*old(rt)),
            p.id() == old(rt).n_objects(),
            final(rt).rc(p.id()) == 1,
            final(rt).class_of(p.id()) == Self::type_class(),
            final(rt).value_of(p.id()) is Str,
            final(rt).str_of(p.id()) == text@,
            final(rt).muts_of(p.id()) == 0,
            final(rt).pool_depth() == old(rt).pool_depth(),
            p.wf(*final(rt)),
    ;
}

/// An immutable string object.
pub struct NSString;

impl Type for NSString {
    open spec fn type_class() -> u32 {
        CLS_NSSTRING
    }

    fn type_tag() -> u32 {
        CLS_NSSTRING
    }

    fn kind() -> TypeKind {
        TypeKind::ObjC
    }
}

impl ObjCClass for NSString {
    fn class() -> RawClassPtr {
        RawClassPtr::make(CLS_NSSTRING)
    }
}

impl NSObjectProtocol for NSString {

}

impl NSObjectInterface for NSString {
    open spec fn fresh_post(rt: Runtime, id: int) -> bool {
        rt.value_of(id) is Str && rt.str_of(id) == Seq::<char>::empty()
    }

    fn new(rt: &mut Runtime) -> (p: Ptr<Self, Retained>) {
        let id = rt.allocate(CLS_NSSTRING, CLS_NSOBJECT, CLS_NSOBJECT, ObjValue::Str(String::new()));
        Ptr::from_raw_unchecked(RawObjPtr::make(id))
    }
}

impl NSStringInterface for NSString {
    fn new_with_str(rt: &mut Runtime, text: &str) -> (p: Ptr<Self, Retained>) {
        let id = rt.allocate(
            CLS_NSSTRING,
            CLS_NSOBJECT,
            CLS_NSOBJECT,
            ObjValue::Str(text.to_owned()),
        );
        Ptr::from_raw_unchecked(RawObjPtr::make(id))
    }
}

impl IsKindOf<crate::foundation::NSObject> for NSString {
    proof fn declared_descends() {
        assert(class_descends(CLS_NSOBJECT, CLS_NSOBJECT));
        assert(class_descends(CLS_NSSTRING, CLS_NSOBJECT));
    }
}

/// A mutable string object. No text-rewriting operation is exposed here,
/// but the class is distinct, and a mutable string stands wherever a
/// string is expected.
pub struct NSMutableString;

/// Marker for mutable string classes.
pub trait NSMutableStringInterface: NSStringInterface {

}

impl Type for NSMutableString {
    open spec fn type_class() -> u32 {
        CLS_NSMUTABLESTRING
    }

    fn type_tag() -> u32 {
        CLS_NSMUTABLESTRING
    }

    fn kind() -> TypeKind {
        TypeKind::ObjC
    }
}

impl ObjCClass for NSMutableString {
    fn class() -> RawClassPtr {
        RawClassPtr::make(CLS_NSMUTABLESTRING)
    }
}

impl NSObjectProtocol for NSMutableString {

}

impl NSObjectInterface for NSMutableString {
    open spec fn fresh_post(rt: Runtime, id: int) -> bool {
        rt.value_of(id) is Str && rt.str_of(id) == Seq::<char>::empty()
    }

    fn new(rt: &mut Runtime) -> (p: Ptr<Self, Retained>) {
        let id = rt.allocate(
            CLS_NSMUTABLESTRING,
            CLS_NSOBJECT,
            CLS_NSOBJECT,
            ObjValue::Str(String::new()),
        );
        Ptr::from_raw_unchecked(RawObjPtr::make(id))
    }
}

impl NSStringInterface for NSMutableString {
    fn new_with_str(rt: &mut Runtime, text: &str) -> (p: Ptr<Self, Retained>) {
        let id = rt.allocate(
            CLS_NSMUTABLESTRING,
            CLS_NSOBJECT,
            CLS_NSOBJECT,
            ObjValue::Str(text.to_owned()),
        );
        Ptr::from_raw_unchecked(RawObjPtr::make(id))
    }
}

impl NSMutableStringInterface for NSMutableString {

}

impl IsKindOf<crate::foundation::NSObject> for NSMutableString {
    proof fn declared_descends() {
        assert(class_descends(CLS_NSOBJECT, CLS_NSOBJECT));
        assert(class_descends(CLS_NSSTRING, CLS_NSOBJECT));
        assert(class_descends(CLS_NSMUTABLESTRING, CLS_NSOBJECT));
    }
}

impl IsKindOf<NSString> for NSMutableString {
    proof fn declared_descends() {
        assert(class_descends(CLS_NSSTRING, CLS_NSSTRING));
        assert(class_descends(CLS_NSMUTABLESTRING, CLS_NSSTRING));
    }
}

/// The text operations every string wrapper answers, whatever its
/// ownership policy.
pub trait NSStringInterfaceInstanceMethods: Sized {
    /// The identity of the string object behind `self`.
    spec fn str_id(&self) -> int;

    /// The wrapper names an allocated object of a string class.
    spec fn str_wf(&self, rt: Runtime) -> bool;

    /// The identity as a table index.
    fn str_index(&self) -> (i: usize)
        ensures
            i as int == self.str_id(),
    ;

    /// A string wrapper's object really carries text, and its class is in
    /// the string equality family.
    proof fn str_is_text(&self, rt: Runtime)
        requires
            rt.inv(),
            self.str_wf(rt),
        ensures
            rt.contains(self.str_id()),
            rt.value_of(self.str_id()) is Str,
            class_family(rt.class_of(self.str_id())) == FAM_STRING,
    ;

    /// The text of the string, decoded; the model's strings are always
    /// valid text, so this never fails.
    fn to_string(&self, rt: &Runtime) -> (r: Result<String, StrDecodeError>)
        requires
            rt.inv(),
            self.str_wf(*rt),
        ensures
            r matches Ok(s) && s@ == rt.str_of(self.str_id()),
    {
        proof {
            self.str_is_text(*rt);
        }
        Ok(rt.str_value(self.str_index()))
    }

    /// The text of the string; bytes that fail to decode would be
    /// replaced, but the model's strings are always valid text.
    fn to_string_lossy(&self, rt: &Runtime) -> (r: String)
        requires
            rt.inv(),
            self.str_wf(*rt),
        ensures
            r@ == rt.str_of(self.str_id()),
    {
        proof {
            self.str_is_text(*rt);
        }
        rt.str_value(self.str_index())
    }

    /// The length of the string in UTF-16 code units, as the native
    /// interface counts it.
    fn len(&self, rt: &Runtime) -> (l: usize)
        requires
            rt.inv(),
            self.str_wf(*rt),
            utf16_len(rt.str_of(self.str_id())) <= usize::MAX,
        ensures
            l == utf16_len(rt.str_of(self.str_id())),
    {
        proof {
            self.str_is_text(*rt);
        }
        let stored = rt.str_value(self.str_index());
        let ghost s = rt.str_of(self.str_id());
        let n = stored.as_str().unicode_len();
        proof {
            assert(s.take(0) =~= Seq::<char>::empty());
            assert(s.skip(0) =~= s);
        }
        let mut total: usize = 0;
        let mut i: usize = 0;
        while i < n
            invariant
                i <= n,
                stored@ == s,
                n == s.len(),
                total == utf16_len(s.take(i as int)),
                utf16_len(s) <= usize::MAX,
                utf16_len(s.take(i as int)) + utf16_len(s.skip(i as int)) == utf16_len(s),
            decreases n - i,
        {
            let c = stored.as_str().get_char(i);
            proof {
                assert(s.skip(i as int)[0] == s[i as int]);
                assert(s.skip(i as int).drop_first() =~= s.skip(i as int + 1));
                assert(s.take(i as int).push(s[i as int]) =~= s.take(i as int + 1));
                lemma_utf16_len_push(s.take(i as int), s[i as int]);
            }
            if (c as u32) <= 0xFFFF {
                total = total + 1;
            } else {
                total = total + 2;
            }
            i = i + 1;
        }
        proof {
            assert(s.take(n as int) =~= s);
        }
        total
    }

    /// The UTF-16 code unit at `index`, as the native `characterAtIndex:`
    /// reads it; an index past the unit count is a fatal native condition
    /// and is excluded outright.
    fn char_at(&self, rt: &Runtime, index: usize) -> (u: u16)
        requires
            rt.inv(),
            self.str_wf(*rt),
            index < utf16_len(rt.str_of(self.str_id())),
            utf16_len(rt.str_of(self.str_id())) <= usize::MAX,
        ensures
            u == utf16_seq(rt.str_of(self.str_id()))[index as int],
    {
        proof {
            self.str_is_text(*rt);
        }
        let stored = rt.str_value(self.str_index());
        let ghost s = rt.str_of(self.str_id());
        let n = stored.as_str().unicode_len();
        proof {
            assert(s.take(0) =~= Seq::<char>::empty());
            assert(s.skip(0) =~= s);
            lemma_utf16_seq_len(s);
        }
        let mut pos: usize = 0;
        let mut i: usize = 0;
        loop
            invariant
                i <= n,
                s == rt.str_of(self.str_id()),
                stored@ == s,
                n == s.len(),
                index < utf16_len(s),
                utf16_len(s) <= usize::MAX,
                pos == utf16_len(s.take(i as int)),
                pos <= index,
                utf16_len(s.take(i as int)) + utf16_len(s.skip(i as int)) == utf16_len(s),
                utf16_seq(s) == utf16_seq(s.take(i as int)) + utf16_seq(s.skip(i as int)),
                utf16_seq(s.take(i as int)).len() == pos,
            decreases n - i,
        {
            proof {
                if i == n {
                    assert(s.take(i as int) =~= s);
                }
            }
            let c = stored.as_str().get_char(i);
            let units: usize = if (c as u32) <= 0xFFFF {
                1
            } else {
                2
            };
            proof {
                assert(s.skip(i as int)[0] == s[i as int]);
                assert(s.skip(i as int).drop_first() =~= s.skip(i as int + 1));
                assert(s.take(i as int).push(s[i as int]) =~= s.take(i as int + 1));
                lemma_utf16_len_push(s.take(i as int), s[i as int]);
                lemma_utf16_seq_push(s.take(i as int), s[i as int]);
                assert(utf16_seq(s.take(i as int + 1)).len() == utf16_len(s.take(i as int + 1)))
                    by {
                    lemma_utf16_seq_len(s.take(i as int + 1));
                }
            }
            if index - pos < units {
                proof {
                    assert(utf16_seq(s.skip(i as int)) == utf16_code_units(s[i as int])
                        + utf16_seq(s.skip(i as int + 1)));
                    assert(utf16_seq(s)[index as int] == utf16_code_units(s[i as int])[index - pos]);
                }
                if (c as u32) <= 0xFFFF {
                    return (c as u32) as u16;
                } else if index == pos {
                    let v = (c as u32) - 0x10000;
                    return (0xD800u32 + v / 0x400) as u16;
                } else {
                    let v = (c as u32) - 0x10000;
                    return (0xDC00u32 + v % 0x400) as u16;
                }
            }
            pos = pos + units;
            i = i + 1;
        }
    }

    /// Whether the string holds no text at all.
    fn is_empty(&self, rt: &Runtime) -> (r: bool)
        requires
            rt.inv(),
            self.str_wf(*rt),
        ensures
            r == (rt.str_of(self.str_id()).len() == 0),
    {
        proof {
            self.str_is_text(*rt);
        }
        let stored = rt.str_value(self.str_index());
        stored.as_str().unicode_len() == 0
    }

}

impl<T: NSStringInterface, O: Ownership> NSStringInterfaceInstanceMethods for Ptr<T, O> {
    open spec fn str_id(&self) -> int {
        self.id()
    }

    open spec fn str_wf(&self, rt: Runtime) -> bool {
        self.wf(rt) && class_descends(T::type_class(), CLS_NSSTRING)
    }

    fn str_index(&self) -> (i: usize) {
        self.as_raw().index()
    }

    proof fn str_is_text(&self, rt: Runtime) {
        assert(rt.entry_inv(self.id()));
        lemma_descends_value_family(T::type_class(), CLS_NSSTRING);
        lemma_descends_value_family(rt.class_of(self.id()), T::type_class());
    }
}

impl<T: NSStringInterface, O: Ownership> Ptr<T, O> {
    /// Text equality with another string object, as `isEqualToString:`
    /// answers it: true exactly when the two texts agree.
    pub fn is_equal_to_string<OtherT: NSStringInterface, OtherO: Ownership>(
        &self,
        rt: &Runtime,
        obj: &Ptr<OtherT, OtherO>,
    ) -> (r: bool)
        requires
            rt.inv(),
            self.str_wf(*rt),
            obj.str_wf(*rt),
        ensures
            r == (rt.str_of(self.id()) == rt.str_of(obj.id())),
    {
        proof {
            self.str_is_text(*rt);
            obj.str_is_text(*rt);
        }
        rt.ids_equal(self.as_raw().index(), obj.as_raw().index())
    }
}

/// The error a text decode would report; the model never produces it.
#[derive(Clone, Copy, PartialEq, Eq, Structural, Debug)]
pub struct StrDecodeError;

impl<T: NSObjectProtocol, O: Ownership> Ptr<T, O> {
    /// A human-readable description of the object: a fresh string object
    /// holding the object's class name.
    pub fn description(&self, rt: &mut Runtime) -> (d: Ptr<NSString, Retained>)
        requires
            old(rt).inv(),
            self.wf(*old(rt)),
        ensures
            final(rt).inv(),
            final(rt).grown(*old(rt)),
            d.id() == old(rt).n_objects(),
            final(rt).rc(d.id()) == 1,
            final(rt).value_of(d.id()) is Str,
            final(rt).str_of(d.id()) == spec_class_name(old(rt).class_of(self.id())),
            d.wf(*final(rt)),
    {
        let c = rt.class_tag(self.as_raw().index());
        let text = crate::runtime::class_name_string(c);
        let id = rt.allocate(CLS_NSSTRING, CLS_NSOBJECT, CLS_NSOBJECT, ObjValue::Str(text));
        Ptr::from_raw_unchecked(RawObjPtr::make(id))
    }

    /// A description meant for debugging; the same text as
    /// [`Self::description`].
    pub fn debug_description(&self, rt: &mut Runtime) -> (d: Ptr<NSString, Retained>)
        requires
            old(rt).inv(),
            self.wf(*old(rt)),
        ensures
            final(rt).inv(),
            final(rt).grown(*old(rt)),
            d.id() == old(rt).n_objects(),
            final(rt).rc(d.id()) == 1,
            final(rt).value_of(d.id()) is Str,
            final(rt).str_of(d.id()) == spec_class_name(old(rt).class_of(self.id())),
            d.wf(*final(rt)),
    {
        self.description(rt)
    }
}

/// A wrapper around an immortal string constant: copyable, never
/// released.
#[derive(Clone, Copy)]
pub struct StaticNSString {
    raw: RawObjPtr,
}

impl StaticNSString {
    /// The identity of the string constant.
    pub closed spec fn id(self) -> int {
        self.raw.id()
    }

    /// The wrapper names an allocated string object.
    pub open spec fn wf(self, rt: Runtime) -> bool {
        &&& rt.contains(self.id())
        &&& class_descends(rt.class_of(self.id()), CLS_NSSTRING)
    }

    /// Wrap a handle to a known-immortal string constant.
    pub(crate) fn from_static(raw: RawObjPtr) -> (s: StaticNSString)
        ensures
            s.id() == raw.id(),
    {
        StaticNSString { raw }
    }

    /// Expose the handle without transferring ownership.
    pub fn as_raw(&self) -> (r: RawObjPtr)
        ensures
            r.id() == self.id(),
    {
        self.raw
    }

    /// View the constant as a static-policy string pointer.
    pub fn as_ptr(&self) -> (p: Ptr<NSString, Static>)
        ensures
            p.id() == self.id(),
    {
        Ptr::from_raw_unchecked(self.raw)
    }

    /// Retain the constant into an independently owned string.
    pub fn retain_string(&self, rt: &mut Runtime) -> (p: Ptr<NSString, Retained>)
        requires
            old(rt).inv(),
            self.wf(*old(rt)),
            old(rt).rc(self.id()) < u64::MAX,
        ensures
            final(rt).inv(),
            final(rt).same_except(*old(rt), self.id()),
            final(rt).only_rc_changed(*old(rt), self.id()),
            final(rt).rc(self.id()) == old(rt).rc(self.id()) + 1,
            p.id() == self.id(),
            p.wf(*final(rt)),
    {
        let p: Ptr<NSString, Static> = Ptr::from_raw_unchecked(self.raw);
        p.retain(rt)
    }
}

impl NSStringInterfaceInstanceMethods for StaticNSString {
    open spec fn str_id(&self) -> int {
        self.id()
    }

    open spec fn str_wf(&self, rt: Runtime) -> bool {
        self.wf(rt)
    }

    fn str_index(&self) -> (i: usize) {
        self.as_raw().index()
    }

    proof fn str_is_text(&self, rt: Runtime) {
        assert(rt.entry_inv(self.id()));
        lemma_descends_value_family(rt.class_of(self.id()), CLS_NSSTRING);
    }
}

} // verus!
