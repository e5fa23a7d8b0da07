//! URL and date objects.
//!
//! A URL object is built from text: text without an ASCII scheme
//! separator is rejected with an absent value, exactly as the native
//! constructor answers `nil`. A date object carries the store's clock
//! reading at its creation.

use vstd::prelude::*;
use vstd::string::StrSliceExecFns;
use vstd::string::StringExecFns;

use crate::base::IsKindOf;
use crate::base::ObjCClass;
use crate::base::Ownership;
use crate::base::Ptr;
use crate::base::RawClassPtr;
use crate::base::RawObjPtr;
use crate::base::Retained;
use crate::base::Type;
use crate::foundation::NSObjectInterface;
use crate::foundation::NSObjectProtocol;
use crate::nsstring::NSString;
use crate::nsstring::NSStringInterface;
use crate::nsstring::NSStringInterfaceInstanceMethods;
use crate::runtime::class_descends;
use crate::runtime::ObjValue;
use crate::runtime::Runtime;
use crate::runtime::TypeKind;
use crate::runtime::CLS_NSDATE;
use crate::runtime::CLS_NSOBJECT;
use crate::runtime::CLS_NSSTRING;
use crate::runtime::CLS_NSURL;

verus! {

/// Text the URL constructor accepts: non-empty, all ASCII, and holding a
/// scheme separator.
pub open spec fn is_valid_url_text(s: Seq<char>) -> bool {
    &&& s.len() > 0
    &&& forall|i: int| 0 <= i < s.len() ==> (#[trigger] s[i]) as u32 <= 127
    &&& exists|i: int| 0 <= i < s.len() && s[i] == ':'
}

/// A URL object; its value is the absolute URL text.
pub struct NSURL;

impl Type for NSURL {
    open spec fn type_class() -> u32 {
        CLS_NSURL
    }

    fn type_tag() -> u32 {
        CLS_NSURL
    }

    fn kind() -> TypeKind {
        TypeKind::ObjC
    }
}

impl ObjCClass for NSURL {
    fn class() -> RawClassPtr {
        RawClassPtr::make(CLS_NSURL)
    }
}

impl NSObjectProtocol for NSURL {

}

impl NSObjectInterface for NSURL {
    open spec fn fresh_post(rt: Runtime, id: int) -> bool {
        rt.value_of(id) is Str && rt.str_of(id) == Seq::<char>::empty()
    }

    fn new(rt: &mut Runtime) -> (p: Ptr<Self, Retained>) {
        let id = rt.allocate(CLS_NSURL, CLS_NSOBJECT, CLS_NSOBJECT, ObjValue::Str(String::new()));
        Ptr::from_raw_unchecked(RawObjPtr::make(id))
    }
}

impl IsKindOf<crate::foundation::NSObject> for NSURL {
    proof fn declared_descends() {
        assert(class_descends(CLS_NSOBJECT, CLS_NSOBJECT));
        assert(class_descends(CLS_NSURL, CLS_NSOBJECT));
    }
}

impl NSURL {
    /// Build a URL from text. Text without an ASCII scheme separator is
    /// not a URL, and the answer is absent rather than an error.
    pub fn new_with_string<S: NSStringInterface, SO: Ownership>(
        rt: &mut Runtime,
        string: &Ptr<S, SO>,
    ) -> (r: Option<Ptr<NSURL, Retained>>)
        requires
            old(rt).inv(),
            string.str_wf(*old(rt)),
        ensures
            final(rt).inv(),
            r is Some <==> is_valid_url_text(old(rt).str_of(string.id())),
            r is None ==> *final(rt) == *old(rt),
            r matches Some(p) ==> {
                &&& final(rt).grown(*old(rt))
                &&& p.id() == old(rt).n_objects()
                &&& final(rt).rc(p.id()) == 1
                &&& final(rt).class_of(p.id()) == CLS_NSURL
                &&& final(rt).str_of(p.id()) == old(rt).str_of(string.id())
                &&& p.wf(*final(rt))
            },
    {
        proof {
            string.str_is_text(*rt);
        }
        let text = rt.str_value(string.as_raw().index());
        let ghost s = rt.str_of(string.id());
        let n = text.as_str().unicode_len();
        if n == 0 {
            return None;
        }
        let mut has_scheme = false;
        let mut i: usize = 0;
        while i < n
            invariant
                i <= n,
                rt.inv(),
                *rt == *old(rt),
                s == old(rt).str_of(string.id()),
                text@ == s,
                n == s.len(),
                forall|j: int| 0 <= j < i ==> (#[trigger] s[j]) as u32 <= 127,
                has_scheme == exists|j: int| 0 <= j < i && s[j] == ':',
            decreases n - i,
        {
            let c = text.as_str().get_char(i);
            if (c as u32) > 127 {
                return None;
            }
            if c == ':' {
                has_scheme = true;
            }
            i = i + 1;
        }
        if !has_scheme {
            return None;
        }
        let id = rt.allocate(CLS_NSURL, CLS_NSOBJECT, CLS_NSOBJECT, ObjValue::Str(text));
        Some(Ptr::from_raw_unchecked(RawObjPtr::make(id)))
    }

    /// Build a file URL from a path. An empty path is against the native
    /// constructor's documented contract and is excluded outright.
    pub fn file_url_with_path<S: NSStringInterface, SO: Ownership>(
        rt: &mut Runtime,
        path: &Ptr<S, SO>,
    ) -> (p: Ptr<NSURL, Retained>)
        requires
            old(rt).inv(),
            path.str_wf(*old(rt)),
            old(rt).str_of(path.id()).len() > 0,
        ensures
            final(rt).inv(),
            final(rt).grown(*old(rt)),
            p.id() == old(rt).n_objects(),
            final(rt).rc(p.id()) == 1,
            final(rt).class_of(p.id()) == CLS_NSURL,
            final(rt).str_of(p.id()) == "file://"@ + old(rt).str_of(path.id()),
            p.wf(*final(rt)),
    {
        proof {
            path.str_is_text(*rt);
        }
        let text = rt.str_value(path.as_raw().index());
        let prefixed = String::from_str("file://").concat(text.as_str());
        let id = rt.allocate(CLS_NSURL, CLS_NSOBJECT, CLS_NSOBJECT, ObjValue::Str(prefixed));
        Ptr::from_raw_unchecked(RawObjPtr::make(id))
    }

    /// Build a file URL from a path known to be or not be a directory;
    /// the flag spares the native side a disk access and does not change
    /// the resulting URL text here.
    pub fn file_url_with_path_is_directory<S: NSStringInterface, SO: Ownership>(
        rt: &mut Runtime,
        path: &Ptr<S, SO>,
        is_directory: bool,
    ) -> (p: Ptr<NSURL, Retained>)
        requires
            old(rt).inv(),
            path.str_wf(*old(rt)),
            old(rt).str_of(path.id()).len() > 0,
        ensures
            final(rt).inv(),
            final(rt).grown(*old(rt)),
            p.id() == old(rt).n_objects(),
            final(rt).rc(p.id()) == 1,
            final(rt).class_of(p.id()) == CLS_NSURL,
            final(rt).str_of(p.id()) == "file://"@ + old(rt).str_of(path.id()),
            p.wf(*final(rt)),
    {
        let _ = is_directory;
        Self::file_url_with_path(rt, path)
    }
}

impl<O: Ownership> Ptr<NSURL, O> {
    /// The URL's absolute text, as a fresh string object.
    pub fn absolute_string(&self, rt: &mut Runtime) -> (p: Ptr<NSString, Retained>)
        requires
            old(rt).inv(),
            self.wf(*old(rt)),
        ensures
            final(rt).inv(),
            final(rt).grown(*old(rt)),
            p.id() == old(rt).n_objects(),
            final(rt).rc(p.id()) == 1,
            final(rt).str_of(p.id()) == old(rt).str_of(self.id()),
            final(rt).value_of(p.id()) is Str,
            p.wf(*final(rt)),
    {
        proof {
            assert(rt.entry_inv(self.id()));
            crate::runtime::lemma_descends_value_family(rt.class_of(self.id()), CLS_NSURL);
        }
        let text = rt.str_value(self.as_raw().index());
        let id = rt.allocate(CLS_NSSTRING, CLS_NSOBJECT, CLS_NSOBJECT, ObjValue::Str(text));
        Ptr::from_raw_unchecked(RawObjPtr::make(id))
    }
}

/// A date object: the store's clock reading at its creation.
pub struct NSDate;

impl Type for NSDate {
    open spec fn type_class() -> u32 {
        CLS_NSDATE
    }

    fn type_tag() -> u32 {
        CLS_NSDATE
    }

    fn kind() -> TypeKind {
        TypeKind::ObjC
    }
}

impl ObjCClass for NSDate {
    fn class() -> RawClassPtr {
        RawClassPtr::make(CLS_NSDATE)
    }
}

impl NSObjectProtocol for NSDate {

}

impl NSObjectInterface for NSDate {
    open spec fn fresh_post(rt: Runtime, id: int) -> bool {
        rt.value_of(id) is Int && rt.num_of(id) == rt.clock()
    }

    fn new(rt: &mut Runtime) -> (p: Ptr<Self, Retained>) {
        let at = rt.clock_now();
        let id = rt.allocate(CLS_NSDATE, CLS_NSOBJECT, CLS_NSOBJECT, ObjValue::Int(at as i128));
        Ptr::from_raw_unchecked(RawObjPtr::make(id))
    }
}

impl IsKindOf<crate::foundation::NSObject> for NSDate {
    proof fn declared_descends() {
        assert(class_descends(CLS_NSOBJECT, CLS_NSOBJECT));
        assert(class_descends(CLS_NSDATE, CLS_NSOBJECT));
    }
}

} // verus!
