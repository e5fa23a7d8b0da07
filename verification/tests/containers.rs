//! Arrays and dictionaries: counting, reading, adding, keyed access.

use choco::base::ObjCClass;
use choco::base::Ptr;
use choco::foundation::NSObject;
use choco::foundation::NSObjectInterface;
use choco::nsarray::NSArray;
use choco::nsarray::NSMutableArray;
use choco::nsdictionary::NSDictionaryInterfaceInstanceMethods;
use choco::nsdictionary::NSMutableDictionaryInterfaceInstanceMethods;
use choco::nsdictionary::NSMutableDictionary;
use choco::nsstring::NSString;
use choco::nsstring::NSStringInterface;
use choco::nsurl::NSDate;
use choco::runtime::Runtime;

#[test]
fn foundation_empty_arrays() {
    let mut rt = Runtime::new();
    let array1: Ptr<NSArray<NSObject>> = NSArray::new(&mut rt);
    let array2: Ptr<NSArray<NSObject>> = NSArray::new(&mut rt);
    assert!(array1.is_equal(&rt, &array1));
    assert!(array1.is_equal(&rt, &array2));
    assert_eq!(array1.count(&rt), 0);
    assert_eq!(array2.count(&rt), 0);
    assert!(array1.first(&mut rt).is_none());
    assert!(array1.last(&mut rt).is_none());
}

#[test]
fn nsarray_empty_arrays() {
    let mut rt = Runtime::new();
    let array1: Ptr<NSArray<NSObject>> = NSArray::new(&mut rt);
    let array2: Ptr<NSArray<NSObject>> = NSArray::new(&mut rt);
    assert!(array1.is_equal(&rt, &array1));
    assert!(array1.is_equal(&rt, &array2));
    assert_eq!(array1.count(&rt), 0);
    assert_eq!(array2.count(&rt), 0);
    assert!(array1.first(&mut rt).is_none());
    assert!(array1.last(&mut rt).is_none());
}

#[test]
fn foundation_adding() {
    let mut rt = Runtime::new();
    let array1: Ptr<NSArray<NSObject>> = NSArray::new(&mut rt);
    let array2: Ptr<NSArray<NSObject>> = NSArray::new(&mut rt);
    let obj1 = NSObject::new(&mut rt);
    let str1 = NSString::new(&mut rt);
    let array1 = array1.adding_object(&mut rt, &obj1);
    let array2 = array2.adding_object(&mut rt, &obj1);
    assert_eq!(array1.count(&rt), 1);
    assert!(array1.is_equal(&rt, &array2));
    assert!(array1.object_at(&mut rt, 0).is_equal(&rt, &obj1));
    assert!(array1.first(&mut rt).unwrap().is_equal(&rt, &obj1));
    // any type that is a kind of the element type can go in
    let array1 = array1.adding_object(&mut rt, &str1);
    assert_eq!(array1.count(&rt), 2);
}

#[test]
fn nsarray_adding() {
    let mut rt = Runtime::new();
    let array1: Ptr<NSArray<NSObject>> = NSArray::new(&mut rt);
    let array2: Ptr<NSArray<NSObject>> = NSArray::new(&mut rt);
    let obj1 = NSObject::new(&mut rt);
    let str1 = NSString::new(&mut rt);
    let array1 = array1.adding_object(&mut rt, &obj1);
    let array2 = array2.adding_object(&mut rt, &obj1);
    assert_eq!(array1.count(&rt), 1);
    assert!(array1.is_equal(&rt, &array2));
    assert!(array1.object_at(&mut rt, 0).is_equal(&rt, &obj1));
    assert!(array1.first(&mut rt).unwrap().is_equal(&rt, &obj1));
    let array1 = array1.adding_object(&mut rt, &str1);
    assert_eq!(array1.count(&rt), 2);
}

#[test]
fn simple_array() {
    let mut rt = Runtime::new();
    let array: Ptr<NSMutableArray<NSString>> = NSMutableArray::new(&mut rt);
    assert!(array.is_empty(&rt));
    assert_eq!(array.count(&rt), 0);
    let value = NSString::new_with_str(&mut rt, "abcd");
    array.add_object(&mut rt, &value);
    assert!(!array.is_empty(&rt));
    assert_eq!(array.count(&rt), 1);
    assert!(array.object_at(&mut rt, 0).is_equal(&rt, &value));
}

#[test]
fn mutable_array_is_an_array() {
    let mut rt = Runtime::new();
    let array: Ptr<NSMutableArray<NSString>> = NSMutableArray::new(&mut rt);
    assert!(array.is_kind_of(&rt, NSArray::<NSString>::class()));
    assert!(array.is_kind_of(&rt, NSObject::class()));
    let frozen: Ptr<NSArray<NSString>, _> = array.upcast(&rt);
    assert_eq!(frozen.count(&rt), 0);
}

#[test]
fn element_read_survives_the_container() {
    let mut rt = Runtime::new();
    let array: Ptr<NSMutableArray<NSString>> = NSMutableArray::new(&mut rt);
    let value = NSString::new_with_str(&mut rt, "kept");
    array.add_object(&mut rt, &value);
    let read = array.object_at(&mut rt, 0);
    // the element handed out carries its own increment
    assert_eq!(rt.rc_count(read.as_raw().index()), 2);
    array.release(&mut rt);
    // the read value is still there to use
    assert!(read.is_equal(&rt, &value));
    read.release(&mut rt);
    assert_eq!(rt.rc_count(value.as_raw().index()), 1);
}

#[test]
fn foundation_simple_dictionary() {
    let mut rt = Runtime::new();
    let dic: Ptr<NSMutableDictionary<NSString, NSDate>> = NSMutableDictionary::new(&mut rt);
    assert!(dic.is_empty(&rt));
    assert_eq!(dic.count(&rt), 0);
    let date = NSDate::new(&mut rt);
    let key = NSString::new_with_str(&mut rt, "abcd");
    dic.set(&mut rt, &key, &date);
    assert_eq!(dic.count(&rt), 1);
    let got = dic.get(&mut rt, &key).unwrap();
    assert!(got.is_equal(&rt, &date));
}

#[test]
fn nsdictionary_simple_dictionary() {
    let mut rt = Runtime::new();
    let dic: Ptr<NSMutableDictionary<NSString, NSDate>> = NSMutableDictionary::new(&mut rt);
    assert!(dic.is_empty(&rt));
    assert_eq!(dic.count(&rt), 0);
    let date = NSDate::new(&mut rt);
    let key = NSString::new_with_str(&mut rt, "abcd");
    dic.set(&mut rt, &key, &date);
    assert_eq!(dic.count(&rt), 1);
    let got = dic.get(&mut rt, &key).unwrap();
    assert!(got.is_equal(&rt, &date));
}

#[test]
fn dictionary_keys_match_by_equality() {
    let mut rt = Runtime::new();
    let dic: Ptr<NSMutableDictionary<NSString, NSObject>> = NSMutableDictionary::new(&mut rt);
    let value = NSObject::new(&mut rt);
    let key = NSString::new_with_str(&mut rt, "k");
    dic.set(&mut rt, &key, &value);
    // a distinct but equal key object finds the entry
    let equal_key = NSString::new_with_str(&mut rt, "k");
    let got = dic.get(&mut rt, &equal_key).unwrap();
    assert!(got.is_equal(&rt, &value));
    // an unrelated key finds nothing
    let other_key = NSString::new_with_str(&mut rt, "other");
    assert!(dic.get(&mut rt, &other_key).is_none());
}

#[test]
fn dictionary_replace_remove_clear() {
    let mut rt = Runtime::new();
    let dic: Ptr<NSMutableDictionary<NSString, NSObject>> = NSMutableDictionary::new(&mut rt);
    let key = NSString::new_with_str(&mut rt, "k");
    let v1 = NSObject::new(&mut rt);
    let v2 = NSObject::new(&mut rt);
    dic.set(&mut rt, &key, &v1);
    dic.set(&mut rt, &key, &v2);
    assert_eq!(dic.count(&rt), 1);
    let got = dic.get(&mut rt, &key).unwrap();
    assert!(got.is_equal(&rt, &v2));
    dic.remove(&mut rt, &key);
    assert_eq!(dic.count(&rt), 0);
    assert!(dic.get(&mut rt, &key).is_none());
    dic.set(&mut rt, &key, &v1);
    dic.remove_all(&mut rt);
    assert!(dic.is_empty(&rt));
}
