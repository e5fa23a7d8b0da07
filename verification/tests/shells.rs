//! The untyped pointer shells and ABI value types.

use choco::base::ObjCClass;
use choco::base::Ptr;
use choco::base::Retained;
use choco::base::RawObjPtr;
use choco::foundation::NSObject;
use choco::foundation::NSObjectInterface;
use choco::nsstring::NSString;
use choco::nsstring::NSStringInterface;
use choco::nsstring::NSStringInterfaceInstanceMethods;
use choco::ptr::Boolean;
use choco::ptr::NullableObjCClassPtr;
use choco::ptr::OwnedObjCPtr;
use choco::ptr::RawNullableObjCPtr;
use choco::ptr::BOOL;
use choco::runtime::Runtime;

#[test]
fn abi_booleans_round_trip() {
    assert_eq!(BOOL::from_bool(true).0, 1);
    assert_eq!(BOOL::from_bool(false).0, 0);
    assert!(BOOL(5).as_bool());
    assert!(!BOOL(0).as_bool());
    assert_eq!(Boolean::from_bool(true).0, 1);
    assert!(Boolean(2).as_bool());
    assert!(!Boolean(0).as_bool());
}

#[test]
fn nullable_handles() {
    assert!(RawNullableObjCPtr::empty().into_opt().is_none());
    assert!(NullableObjCClassPtr::empty().into_opt().is_none());
    let mut rt = Runtime::new();
    let obj = NSObject::new(&mut rt);
    let some = RawNullableObjCPtr(Some(obj.as_raw()));
    assert_eq!(some.into_opt(), Some(obj.as_raw()));
}

#[test]
fn owned_shell_accounts_for_one_increment() {
    let mut rt = Runtime::new();
    let obj = NSObject::new(&mut rt);
    let raw = obj.as_raw();
    let shell = OwnedObjCPtr::retain_unowned(&mut rt, raw);
    assert_eq!(shell.as_raw(), raw);
    assert_eq!(rt.rc_count(raw.index()), 2);
    let second = shell.retain(&mut rt);
    assert_eq!(rt.rc_count(raw.index()), 3);
    second.release(&mut rt);
    shell.release(&mut rt);
    assert_eq!(rt.rc_count(raw.index()), 1);
}

#[test]
fn typed_retain_from_raw() {
    let mut rt = Runtime::new();
    let s = NSString::new_with_str(&mut rt, "twice");
    let raw: RawObjPtr = s.as_raw();
    let again: Ptr<NSString, Retained> = raw.retain(&mut rt);
    assert_eq!(rt.rc_count(raw.index()), 2);
    assert_eq!(again.to_string(&rt).unwrap(), "twice");
    again.release(&mut rt);
    assert_eq!(rt.rc_count(raw.index()), 1);
}

#[test]
fn class_handles_name_their_class() {
    assert_eq!(NSString::class().class_name(), "NSString");
    assert_eq!(NSObject::class().class_name(), "NSObject");
    let wrapped = NullableObjCClassPtr(Some(NSString::class()));
    assert_eq!(wrapped.into_opt().unwrap(), NSString::class());
}
