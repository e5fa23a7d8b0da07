//! Four-character codes, media times, format descriptions, numbers, and
//! the value-or-error construction helper.

use choco::base::ObjCClass;
use choco::base::Ptr;
use choco::base::Retained;
use choco::core_media::CMFormatDescription;
use choco::core_media::CMMediaType;
use choco::core_media::CMTime;
use choco::core_media::CMTimeEpoch;
use choco::core_media::CMTimeFlags;
use choco::core_media::CMTimeScale;
use choco::core_media::CMTimeValue;
use choco::core_media::TypedCMFormatDescription;
use choco::foundation::make_object_result;
use choco::foundation::NSError;
use choco::foundation::NSObject;
use choco::foundation::NSObjectInterface;
use choco::fourcc;
use choco::nsnumber::NSNumber;
use choco::nsnumber::NSNumberInterface;
use choco::runtime::Runtime;

#[test]
fn mod_fourcc() {
    assert_eq!(fourcc("soun"), 0x736F756Eu32);
    assert_eq!(fourcc("text"), 0x74657874u32);
}

#[test]
fn core_media_size() {
    assert_eq!(std::mem::size_of::<CMTime>(), 24);
}

#[test]
fn coremedia_size() {
    assert_eq!(std::mem::size_of::<CMTime>(), 24);
}

#[test]
fn media_codes_are_their_tags() {
    assert_eq!(CMMediaType::audio().0, fourcc("soun"));
    assert_eq!(CMMediaType::video().0, fourcc("vide"));
    assert_eq!(CMMediaType::muxed().0, fourcc("muxx"));
    assert_eq!(CMMediaType::metadata().0, fourcc("meta"));
    assert_eq!(CMMediaType::text().0, fourcc("text"));
    assert_eq!(CMMediaType::time_code().0, fourcc("tmcd"));
    assert_eq!(CMMediaType::closed_caption().0, fourcc("clcp"));
    assert_eq!(CMMediaType::subtitle().0, fourcc("sbtl"));
}

#[test]
fn time_flags_combine() {
    let mask = CMTimeFlags::positive_infinity()
        .union(CMTimeFlags::negative_infinity())
        .union(CMTimeFlags::indefinite());
    assert_eq!(mask, CMTimeFlags::implied_value_flags_mask());
    let t = CMTime {
        value: CMTimeValue(90000),
        timescale: CMTimeScale(600),
        flags: CMTimeFlags::valid(),
        epoch: CMTimeEpoch(0),
    };
    assert_eq!(t.flags.intersect(mask).0, 0);
}

#[test]
fn typed_format_description_dispatch() {
    let mut rt = Runtime::new();
    let audio = CMFormatDescription::new_with_media_type(&mut rt, CMMediaType::audio());
    assert!(matches!(
        TypedCMFormatDescription::from(&rt, audio),
        TypedCMFormatDescription::Audio(_)
    ));
    let video = CMFormatDescription::new_with_media_type(&mut rt, CMMediaType::video());
    assert!(matches!(
        TypedCMFormatDescription::from(&rt, video),
        TypedCMFormatDescription::Video(_)
    ));
    let caption = CMFormatDescription::new_with_media_type(&mut rt, CMMediaType::closed_caption());
    assert!(matches!(
        TypedCMFormatDescription::from(&rt, caption),
        TypedCMFormatDescription::ClosedCaption(_)
    ));
    // the subtitle code has no family of its own
    let subtitle = CMFormatDescription::new_with_media_type(&mut rt, CMMediaType::subtitle());
    assert!(matches!(
        TypedCMFormatDescription::from(&rt, subtitle),
        TypedCMFormatDescription::Unknown(_)
    ));
}

#[test]
fn cf_protocol_operations() {
    let mut rt = Runtime::new();
    let a = CMFormatDescription::new_with_media_type(&mut rt, CMMediaType::audio());
    let b = CMFormatDescription::new_with_media_type(&mut rt, CMMediaType::audio());
    let c = CMFormatDescription::new_with_media_type(&mut rt, CMMediaType::video());
    assert!(a.cf_equal(&rt, &b));
    assert!(!a.cf_equal(&rt, &c));
    assert_eq!(a.cf_hash(&rt), b.cf_hash(&rt));
    assert_eq!(a.cf_type_id(&rt), CMFormatDescription::type_id());
    assert_eq!(a.retain_count(&rt), 1);
    assert_eq!(a.media_type(&rt), CMMediaType::audio());
}

#[test]
fn bool_value() {
    let mut rt = Runtime::new();
    let t1 = NSNumber::from_bool(&mut rt, true);
    let t2 = NSNumber::from_bool(&mut rt, true);
    let f = NSNumber::from_bool(&mut rt, false);
    assert!(t1.is_kind_of(&rt, NSNumber::class()));
    assert!(t2.is_kind_of(&rt, NSNumber::class()));
    assert!(t1.is_equal(&rt, &t1));
    assert!(t1.is_equal(&rt, &t2));
    assert!(!t1.is_equal(&rt, &f));
    assert_eq!(t1.as_bool(&rt), true);
    assert_eq!(t2.as_bool(&rt), true);
    assert_eq!(f.as_bool(&rt), false);
}

#[test]
fn isize_value() {
    let mut rt = Runtime::new();
    let t = NSNumber::from_bool(&mut rt, true);
    let f = NSNumber::from_bool(&mut rt, false);
    let i = NSNumber::from_isize(&mut rt, 12345657890);
    assert!(t.is_kind_of(&rt, NSNumber::class()));
    assert!(f.is_kind_of(&rt, NSNumber::class()));
    assert!(i.is_kind_of(&rt, NSNumber::class()));
    assert_eq!(t.as_isize(&rt), 1);
    assert_eq!(f.as_isize(&rt), 0);
    assert_eq!(i.as_isize(&rt), 12345657890);
}

#[test]
fn usize_round_trip() {
    let mut rt = Runtime::new();
    let n = NSNumber::from_usize(&mut rt, usize::MAX);
    assert_eq!(n.as_usize(&rt), usize::MAX);
}

#[test]
fn result_of_value_without_error() {
    let mut rt = Runtime::new();
    let obj = NSObject::new(&mut rt);
    let raw = obj.as_raw();
    let r: Result<Ptr<NSObject, Retained>, Ptr<NSError, Retained>> =
        make_object_result(&mut rt, Some(raw), None);
    let v = r.ok().unwrap();
    assert_eq!(v.as_raw(), raw);
    assert_eq!(rt.rc_count(raw.index()), 1);
}

#[test]
fn result_of_error_without_value() {
    let mut rt = Runtime::new();
    let error = NSError::new(&mut rt);
    let raw_error = error.as_raw();
    let before = rt.rc_count(raw_error.index());
    let r: Result<Ptr<NSObject, Retained>, Ptr<NSError, Retained>> =
        make_object_result(&mut rt, None, Some(raw_error));
    let e = r.err().unwrap();
    assert_eq!(e.as_raw(), raw_error);
    // the unowned error was retained into the owned wrapper
    assert_eq!(rt.rc_count(raw_error.index()), before + 1);
}

#[test]
fn result_of_value_and_error_releases_the_value() {
    let mut rt = Runtime::new();
    let obj = NSObject::new(&mut rt);
    let raw_value = obj.as_raw();
    let error = NSError::new(&mut rt);
    let raw_error = error.as_raw();
    assert_eq!(rt.rc_count(raw_value.index()), 1);
    let r: Result<Ptr<NSObject, Retained>, Ptr<NSError, Retained>> =
        make_object_result(&mut rt, Some(raw_value), Some(raw_error));
    // the call reports failure...
    let e = r.err().unwrap();
    assert_eq!(e.as_raw(), raw_error);
    // ...and the owned value was released exactly once, not leaked
    assert_eq!(rt.rc_count(raw_value.index()), 0);
    assert_eq!(rt.rc_count(raw_error.index()), 2);
}
