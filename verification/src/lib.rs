//! A model of a reference-counted foreign object system, in the style of the
//! Objective-C runtime and Core Foundation, together with the ownership
//! discipline a safe binding layer imposes on it.
//!
//! The native object store is represented explicitly by [`runtime::Runtime`]:
//! a table of objects, each carrying a reference count, a class, a value and
//! a mutation counter. Every operation that a binding would perform through a
//! foreign call is a verified operation on that table, so the central claims
//! of the binding layer -- retains and releases stay balanced, static
//! references are never released, typed container views only admit conforming
//! elements, enumeration detects structural mutation -- are stated as
//! contracts and proved.

use vstd::prelude::*;

pub mod avfoundation;
pub mod base;
pub mod core_media;
pub mod fastenum;
pub mod foundation;
pub mod laws;
pub mod nsarray;
pub mod nsdictionary;
pub mod nsnumber;
pub mod nsstring;
pub mod nsurl;
pub mod ptr;
pub mod runtime;

verus! {

/// Packs four ASCII characters into a big-endian 32-bit code, as used for
/// media type tags.
pub fn fourcc(text: &str) -> (code: u32)
    requires
        text@.len() == 4,
        forall|i: int| 0 <= i < 4 ==> (#[trigger] text@[i]) as u32 <= 127,
    ensures
        code == spec_fourcc(text@),
{
    let b0 = text.get_char(0) as u32;
    let b1 = text.get_char(1) as u32;
    let b2 = text.get_char(2) as u32;
    let b3 = text.get_char(3) as u32;
    (b0 << 24) | (b1 << 16) | (b2 << 8) | b3
}

/// The code of a four-character tag: each character contributes one
/// big-endian byte.
pub open spec fn spec_fourcc(s: Seq<char>) -> u32
    recommends
        s.len() == 4,
{
    ((s[0] as u32) << 24) | ((s[1] as u32) << 16) | ((s[2] as u32) << 8) | (s[3] as u32)
}

} // verus!
