//! The root object protocol: creation, identity, equality, retaining.

use choco::avfoundation::AVMediaType;
use choco::base::ObjCClass;
use choco::base::Ptr;
use choco::base::Retained;
use choco::foundation::NSObject;
use choco::foundation::NSObjectInterface;
use choco::nsstring::NSString;
use choco::nsstring::NSStringInterface;
use choco::nsstring::NSStringInterfaceInstanceMethods;
use choco::runtime::Runtime;

#[test]
fn base_object_comparison() {
    let mut rt = Runtime::new();
    let obj1 = NSObject::new(&mut rt);
    let obj2 = NSObject::new(&mut rt);
    assert!(obj1.is_equal(&rt, &obj1));
    assert!(obj2.is_equal(&rt, &obj2));
    assert!(!obj1.is_equal(&rt, &obj2));
}

#[test]
fn core_object_comparison() {
    let mut rt = Runtime::new();
    let obj1 = NSObject::new(&mut rt);
    let obj2 = NSObject::new(&mut rt);
    assert!(obj1.is_equal(&rt, &obj1));
    assert!(obj2.is_equal(&rt, &obj2));
    assert!(!obj1.is_equal(&rt, &obj2));
}

#[test]
fn mod_object_comparison() {
    let mut rt = Runtime::new();
    let obj1 = NSObject::new(&mut rt);
    let obj2 = NSObject::new(&mut rt);
    assert!(obj1.is_equal(&rt, &obj1));
    assert!(obj2.is_equal(&rt, &obj2));
    assert!(!obj1.is_equal(&rt, &obj2));
    assert!(obj1.is_equal(&rt, &obj1));
    assert!(obj2.is_equal(&rt, &obj2));
    assert!(!obj2.is_equal(&rt, &obj1));
}

#[test]
fn base_clone() {
    let mut rt = Runtime::new();
    let obj1 = NSObject::new(&mut rt);
    let obj2 = obj1.retain(&mut rt);
    assert!(obj1.is_equal(&rt, &obj2));
}

#[test]
fn core_clone() {
    let mut rt = Runtime::new();
    let obj1 = NSObject::new(&mut rt);
    let obj2 = obj1.retain(&mut rt);
    assert!(obj1.is_equal(&rt, &obj2));
}

#[test]
fn retain() {
    let mut rt = Runtime::new();
    let obj1 = NSObject::new(&mut rt);
    let obj2 = obj1.retain(&mut rt);
    assert!(obj1.is_equal(&rt, &obj2));
    assert!(obj2.is_equal(&rt, &obj1));
}

#[test]
fn retained_count_balances() {
    let mut rt = Runtime::new();
    let obj = NSObject::new(&mut rt);
    let id = obj.as_raw();
    assert_eq!(rt.rc_count(id.index()), 1);
    let extra = obj.retain(&mut rt);
    assert_eq!(rt.rc_count(id.index()), 2);
    let extra2 = extra.retain(&mut rt);
    assert_eq!(rt.rc_count(id.index()), 3);
    extra2.release(&mut rt);
    assert_eq!(rt.rc_count(id.index()), 2);
    extra.release(&mut rt);
    assert_eq!(rt.rc_count(id.index()), 1);
    obj.release(&mut rt);
    assert_eq!(rt.rc_count(id.index()), 0);
}

#[test]
fn static_wrapper_never_releases() {
    let mut rt = Runtime::new();
    let tag = AVMediaType::audio().as_static_string();
    let id = tag.as_raw();
    let before = rt.rc_count(id.index());
    // a static wrapper is copyable; give up several copies
    let copy1 = tag.as_ptr();
    let copy2 = tag.as_ptr();
    let copy3 = tag.as_ptr();
    copy1.release(&mut rt);
    copy2.release(&mut rt);
    copy3.release(&mut rt);
    assert_eq!(rt.rc_count(id.index()), before);
}

#[test]
fn distinct_but_equal_strings() {
    let mut rt = Runtime::new();
    let s1: Ptr<NSString, Retained> = NSString::new_with_str(&mut rt, "abcd");
    let s2: Ptr<NSString, Retained> = NSString::new_with_str(&mut rt, "abcd");
    // distinct objects behind distinct pointers...
    assert!(s1.as_raw() != s2.as_raw());
    // ...compare equal at the protocol level, and hash alike
    assert!(s1.is_equal(&rt, &s2));
    assert_eq!(s1.hash(&rt), s2.hash(&rt));
    // while an object compared against itself is always equal
    assert!(s1.is_equal(&rt, &s1));
    // and a string is never equal to a plain object
    let o = NSObject::new(&mut rt);
    assert!(!s1.is_equal(&rt, &o));
}

#[test]
fn description_names_the_class() {
    let mut rt = Runtime::new();
    let obj = NSObject::new(&mut rt);
    let d = obj.description(&mut rt);
    assert_eq!(d.to_string(&rt).unwrap(), "NSObject");
    let s = NSString::new(&mut rt);
    let sd = s.debug_description(&mut rt);
    assert_eq!(sd.to_string(&rt).unwrap(), "NSString");
}

#[test]
fn autorelease_pool_balances() {
    let mut rt = Runtime::new();
    assert_eq!(rt.pool_count(), 0);
    let answer = choco::base::autorelease_pool(&mut rt, || 17u32);
    assert_eq!(answer, 17);
    assert_eq!(rt.pool_count(), 0);
}
