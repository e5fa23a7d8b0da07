//! String objects: creation, text, length in UTF-16 units, URLs.

use choco::base::ObjCClass;
use choco::base::Ptr;
use choco::base::Retained;
use choco::foundation::NSObject;
use choco::foundation::NSObjectInterface;
use choco::nsstring::NSMutableString;
use choco::nsstring::NSString;
use choco::nsstring::NSStringInterface;
use choco::nsstring::NSStringInterfaceInstanceMethods;
use choco::nsurl::NSURL;
use choco::runtime::Runtime;

#[test]
fn foundation_empty_strings() {
    let mut rt = Runtime::new();
    let string1 = NSString::new(&mut rt);
    let string2 = NSString::new(&mut rt);
    assert!(string1.is_kind_of(&rt, NSString::class()));
    assert!(string2.is_kind_of(&rt, NSString::class()));
    assert!(string1.is_equal(&rt, &string1));
    assert!(string1.is_equal(&rt, &string2));
    assert_eq!(string1.len(&rt), 0);
    assert_eq!(string2.len(&rt), 0);
    assert_eq!(&string1.to_string(&rt).unwrap(), "");
}

#[test]
fn nsstring_empty_strings() {
    let mut rt = Runtime::new();
    let string1 = NSString::new(&mut rt);
    let string2 = NSString::new(&mut rt);
    assert!(string1.is_kind_of(&rt, NSString::class()));
    assert!(string2.is_kind_of(&rt, NSString::class()));
    assert!(string1.is_equal(&rt, &string1));
    assert!(string1.is_equal(&rt, &string2));
    assert_eq!(string1.len(&rt), 0);
    assert_eq!(string2.len(&rt), 0);
    assert_eq!(&string1.to_string(&rt).unwrap(), "");
}

#[test]
fn foundation_new_with_str() {
    let mut rt = Runtime::new();
    let text = "😁";
    let obj: Ptr<NSString, Retained> = NSString::new_with_str(&mut rt, text);
    assert!(obj.is_kind_of(&rt, NSObject::class()));
    assert!(obj.is_kind_of(&rt, NSString::class()));
    // the native length counts UTF-16 code units
    assert_eq!(obj.len(&rt), 2);
    assert_eq!(&obj.to_string(&rt).unwrap(), text);
}

#[test]
fn nsstring_new_with_str() {
    let mut rt = Runtime::new();
    let text = "😁";
    let obj: Ptr<NSString, Retained> = NSString::new_with_str(&mut rt, text);
    assert!(obj.is_kind_of(&rt, NSObject::class()));
    assert!(obj.is_kind_of(&rt, NSString::class()));
    assert_eq!(obj.len(&rt), 2);
    assert_eq!(&obj.to_string(&rt).unwrap(), text);
}

#[test]
fn mutable_string_is_a_string() {
    let mut rt = Runtime::new();
    let m: Ptr<NSMutableString, Retained> = NSMutableString::new_with_str(&mut rt, "ab");
    let s: Ptr<NSString, Retained> = NSString::new_with_str(&mut rt, "ab");
    assert!(m.is_kind_of(&rt, NSString::class()));
    assert!(m.is_kind_of(&rt, NSObject::class()));
    assert!(m.is_equal_to_string(&rt, &s));
    assert!(m.is_equal(&rt, &s));
    let n: Ptr<NSString, Retained> = NSString::new_with_str(&mut rt, "cd");
    assert!(!m.is_equal_to_string(&rt, &n));
}

#[test]
fn simple_url() {
    let mut rt = Runtime::new();
    let invalid_url_string = NSString::new_with_str(&mut rt, "🍁");
    let valid_url_string = NSString::new_with_str(&mut rt, "https://www.rust-lang.org/");
    assert!(NSURL::new_with_string(&mut rt, &invalid_url_string).is_none());
    let valid_url = NSURL::new_with_string(&mut rt, &valid_url_string).unwrap();
    let absolute = valid_url.absolute_string(&mut rt);
    assert!(absolute.is_equal(&rt, &valid_url_string));
    assert_eq!(
        &valid_url.absolute_string(&mut rt).to_string(&rt).unwrap(),
        "https://www.rust-lang.org/"
    );
    assert!(valid_url.is_kind_of(&rt, NSObject::class()));
    assert!(valid_url.is_kind_of(&rt, NSURL::class()));
    assert!(!valid_url.is_kind_of(&rt, NSString::class()));
}

#[test]
fn file_urls() {
    let mut rt = Runtime::new();
    let path = NSString::new_with_str(&mut rt, "/tmp/a.txt");
    let url = NSURL::file_url_with_path(&mut rt, &path);
    assert_eq!(
        url.absolute_string(&mut rt).to_string(&rt).unwrap(),
        "file:///tmp/a.txt"
    );
    let url2 = NSURL::file_url_with_path_is_directory(&mut rt, &path, false);
    assert_eq!(
        url2.absolute_string(&mut rt).to_string(&rt).unwrap(),
        "file:///tmp/a.txt"
    );
}

#[test]
fn url_without_scheme_is_rejected() {
    let mut rt = Runtime::new();
    let no_scheme = NSString::new_with_str(&mut rt, "www.rust-lang.org");
    assert!(NSURL::new_with_string(&mut rt, &no_scheme).is_none());
    let empty = NSString::new(&mut rt);
    assert!(NSURL::new_with_string(&mut rt, &empty).is_none());
}

#[test]
fn char_at_reads_utf16_units() {
    let mut rt = Runtime::new();
    let s = NSString::new_with_str(&mut rt, "a😁");
    assert_eq!(s.len(&rt), 3);
    assert_eq!(s.char_at(&rt, 0), 0x0061);
    // the emoji is one character but a surrogate pair of units
    assert_eq!(s.char_at(&rt, 1), 0xD83D);
    assert_eq!(s.char_at(&rt, 2), 0xDE01);
}
