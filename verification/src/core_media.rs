//! Core Media values and format descriptions.
//!
//! The time values are plain structs; the format description is a Core
//! Foundation object whose content is its four-character media code, and
//! the typed dispatch sorts a description into its media family by that
//! code alone.

use vstd::prelude::*;

use crate::base::Ownership;
use crate::base::Ptr;
use crate::base::RawObjPtr;
use crate::base::Retained;
use crate::base::Type;
use crate::runtime::class_descends;
use crate::runtime::ObjValue;
use crate::runtime::Runtime;
use crate::runtime::TypeKind;
use crate::runtime::CLS_CMFORMATDESCRIPTION;
use crate::runtime::CLS_NSOBJECT;

verus! {

/// A media time's counted units.
#[derive(Clone, Copy, PartialEq, Eq, Structural, Debug)]
pub struct CMTimeValue(pub i64);

/// How many time units make one second.
#[derive(Clone, Copy, PartialEq, Eq, Structural, Debug)]
pub struct CMTimeScale(pub i32);

/// The epoch a time belongs to; times of different epochs do not compare.
#[derive(Clone, Copy, PartialEq, Eq, Structural, Debug)]
pub struct CMTimeEpoch(pub i64);

/// Flag bits qualifying a media time.
#[derive(Clone, Copy, PartialEq, Eq, Structural, Debug)]
pub struct CMTimeFlags(pub u32);

impl CMTimeFlags {
    /// The time is valid at all.
    pub fn valid() -> (f: CMTimeFlags)
        ensures
            f.0 == 0x1,
    {
        CMTimeFlags(0x1)
    }

    /// The time was rounded on the way here.
    pub fn has_been_rounded() -> (f: CMTimeFlags)
        ensures
            f.0 == 0x2,
    {
        CMTimeFlags(0x2)
    }

    /// The time is past every finite time.
    pub fn positive_infinity() -> (f: CMTimeFlags)
        ensures
            f.0 == 0x4,
    {
        CMTimeFlags(0x4)
    }

    /// The time is before every finite time.
    pub fn negative_infinity() -> (f: CMTimeFlags)
        ensures
            f.0 == 0x8,
    {
        CMTimeFlags(0x8)
    }

    /// The time exists but cannot be placed.
    pub fn indefinite() -> (f: CMTimeFlags)
        ensures
            f.0 == 0x10,
    {
        CMTimeFlags(0x10)
    }

    /// The bits whose presence implies the value tells nothing.
    pub fn implied_value_flags_mask() -> (f: CMTimeFlags)
        ensures
            f.0 == 0x1c,
    {
        CMTimeFlags(0x1c)
    }

    /// The union of two flag sets.
    pub fn union(self, rhs: CMTimeFlags) -> (f: CMTimeFlags)
        ensures
            f.0 == self.0 | rhs.0,
    {
        CMTimeFlags(self.0 | rhs.0)
    }

    /// The intersection of two flag sets.
    pub fn intersect(self, rhs: CMTimeFlags) -> (f: CMTimeFlags)
        ensures
            f.0 == self.0 & rhs.0,
    {
        CMTimeFlags(self.0 & rhs.0)
    }
}

/// A media time: a value counted in units of a scale, with flags and an
/// epoch.
#[derive(Clone, Copy, PartialEq, Eq, Structural, Debug)]
pub struct CMTime {
    pub value: CMTimeValue,
    pub timescale: CMTimeScale,
    pub flags: CMTimeFlags,
    pub epoch: CMTimeEpoch,
}

/// A span of media time.
#[derive(Clone, Copy, PartialEq, Eq, Structural)]
pub struct CMTimeRange {
    pub start: CMTime,
    pub duration: CMTime,
}

/// A four-character media type code.
#[derive(Clone, Copy, PartialEq, Eq, Structural, Debug)]
pub struct CMMediaType(pub u32);

/// The audio media code, the tag "soun".
pub const MEDIA_CODE_AUDIO: u32 = 0x736F756E;

/// The video media code, the tag "vide".
pub const MEDIA_CODE_VIDEO: u32 = 0x76696465;

/// The muxed media code, the tag "muxx".
pub const MEDIA_CODE_MUXED: u32 = 0x6D757878;

/// The metadata media code, the tag "meta".
pub const MEDIA_CODE_METADATA: u32 = 0x6D657461;

/// The text media code, the tag "text".
pub const MEDIA_CODE_TEXT: u32 = 0x74657874;

/// The timecode media code, the tag "tmcd".
pub const MEDIA_CODE_TIME_CODE: u32 = 0x746D6364;

/// The closed-caption media code, the tag "clcp".
pub const MEDIA_CODE_CLOSED_CAPTION: u32 = 0x636C6370;

/// The subtitle media code, the tag "sbtl".
pub const MEDIA_CODE_SUBTITLE: u32 = 0x7362746C;

impl CMMediaType {
    /// The audio media type.
    pub fn audio() -> (m: CMMediaType)
        ensures
            m.0 == MEDIA_CODE_AUDIO,
    {
        CMMediaType(MEDIA_CODE_AUDIO)
    }

    /// The video media type.
    pub fn video() -> (m: CMMediaType)
        ensures
            m.0 == MEDIA_CODE_VIDEO,
    {
        CMMediaType(MEDIA_CODE_VIDEO)
    }

    /// The muxed media type.
    pub fn muxed() -> (m: CMMediaType)
        ensures
            m.0 == MEDIA_CODE_MUXED,
    {
        CMMediaType(MEDIA_CODE_MUXED)
    }

    /// The metadata media type.
    pub fn metadata() -> (m: CMMediaType)
        ensures
            m.0 == MEDIA_CODE_METADATA,
    {
        CMMediaType(MEDIA_CODE_METADATA)
    }

    /// The text media type.
    pub fn text() -> (m: CMMediaType)
        ensures
            m.0 == MEDIA_CODE_TEXT,
    {
        CMMediaType(MEDIA_CODE_TEXT)
    }

    /// The timecode media type.
    pub fn time_code() -> (m: CMMediaType)
        ensures
            m.0 == MEDIA_CODE_TIME_CODE,
    {
        CMMediaType(MEDIA_CODE_TIME_CODE)
    }

    /// The closed-caption media type.
    pub fn closed_caption() -> (m: CMMediaType)
        ensures
            m.0 == MEDIA_CODE_CLOSED_CAPTION,
    {
        CMMediaType(MEDIA_CODE_CLOSED_CAPTION)
    }

    /// The subtitle media type.
    pub fn subtitle() -> (m: CMMediaType)
        ensures
            m.0 == MEDIA_CODE_SUBTITLE,
    {
        CMMediaType(MEDIA_CODE_SUBTITLE)
    }
}

/// Integer pixel dimensions of a video format.
#[derive(Clone, Copy, PartialEq, Eq, Structural, Debug)]
pub struct CMVideoDimensions {
    pub width: i32,
    pub height: i32,
}

/// The Core Foundation type identifier of a modelled object's class.
#[derive(Clone, Copy, PartialEq, Eq, Structural, Debug)]
pub struct CFTypeID(pub u32);

/// Types backed by Core Foundation objects, whose protocol operations go
/// through the CF calls rather than message sends.
pub trait CFTypeInterface: Type {

}

/// A media format description: a CF object carrying its media code.
pub struct CMFormatDescription;

/// Marker for format-description types.
pub trait CMFormatDescriptionInterface: CFTypeInterface {

}

/// Marker for audio format descriptions.
pub trait CMAudioFormatDescriptionInterface: CMFormatDescriptionInterface {

}

/// Marker for video format descriptions.
pub trait CMVideoFormatDescriptionInterface: CMFormatDescriptionInterface {

}

/// Marker for muxed format descriptions.
pub trait CMMuxedFormatDescriptionInterface: CMFormatDescriptionInterface {

}

/// Marker for metadata format descriptions.
pub trait CMMetadataFormatDescriptionInterface: CMFormatDescriptionInterface {

}

/// Marker for text format descriptions.
pub trait CMTextFormatDescriptionInterface: CMFormatDescriptionInterface {

}

/// Marker for timecode format descriptions.
pub trait CMTimeCodeFormatDescriptionInterface: CMFormatDescriptionInterface {

}

/// Marker for closed-caption format descriptions.
pub trait CMClosedCaptionFormatDescriptionInterface: CMFormatDescriptionInterface {

}

impl Type for CMFormatDescription {
    open spec fn type_class() -> u32 {
        CLS_CMFORMATDESCRIPTION
    }

    fn type_tag() -> u32 {
        CLS_CMFORMATDESCRIPTION
    }

    fn kind() -> TypeKind {
        TypeKind::CF
    }
}

impl CFTypeInterface for CMFormatDescription {

}

impl CMFormatDescriptionInterface for CMFormatDescription {

}

/// A format description statically known to describe audio.
pub struct CMAudioFormatDescription;

/// A format description statically known to describe video.
pub struct CMVideoFormatDescription;

/// A format description statically known to describe muxed media.
pub struct CMMuxedFormatDescription;

/// A format description statically known to describe metadata.
pub struct CMMetadataFormatDescription;

/// A format description statically known to describe text.
pub struct CMTextFormatDescription;

/// A format description statically known to describe timecode.
pub struct CMTimeCodeFormatDescription;

/// A format description statically known to describe closed captions.
pub struct CMClosedCaptionFormatDescription;

impl CMFormatDescription {
    /// The CF type identifier all format descriptions share.
    pub fn type_id() -> (t: CFTypeID)
        ensures
            t.0 == CLS_CMFORMATDESCRIPTION,
    {
        CFTypeID(CLS_CMFORMATDESCRIPTION)
    }

    /// Create a format description carrying the given media type, owned
    /// by the caller.
    pub fn new_with_media_type(rt: &mut Runtime, media_type: CMMediaType) -> (p: Ptr<
        CMFormatDescription,
        Retained,
    >)
        requires
            old(rt).inv(),
        ensures
            final(rt).inv(),
            final(rt).grown(*old(rt)),
            p.id() == old(rt).n_objects(),
            final(rt).rc(p.id()) == 1,
            final(rt).class_of(p.id()) == CLS_CMFORMATDESCRIPTION,
            final(rt).code_of(p.id()) == media_type.0,
            p.wf(*final(rt)),
    {
        let id = rt.allocate(
            CLS_CMFORMATDESCRIPTION,
            CLS_NSOBJECT,
            CLS_NSOBJECT,
            ObjValue::Code(media_type.0),
        );
        Ptr::from_raw_unchecked(RawObjPtr::make(id))
    }
}

impl<T: CMFormatDescriptionInterface, O: Ownership> Ptr<T, O> {
    /// The media type recorded in the description.
    pub fn media_type(&self, rt: &Runtime) -> (m: CMMediaType)
        requires
            rt.inv(),
            self.wf(*rt),
            class_descends(T::type_class(), CLS_CMFORMATDESCRIPTION),
        ensures
            m.0 == rt.code_of(self.id()),
    {
        CMMediaType(rt.code_value(self.as_raw().index()))
    }
}

impl Type for CMAudioFormatDescription {
    open spec fn type_class() -> u32 {
        CLS_CMFORMATDESCRIPTION
    }

    fn type_tag() -> u32 {
        CLS_CMFORMATDESCRIPTION
    }

    fn kind() -> TypeKind {
        TypeKind::CF
    }
}

impl CFTypeInterface for CMAudioFormatDescription {

}

impl CMFormatDescriptionInterface for CMAudioFormatDescription {

}

impl CMAudioFormatDescriptionInterface for CMAudioFormatDescription {

}

impl Type for CMVideoFormatDescription {
    open spec fn type_class() -> u32 {
        CLS_CMFORMATDESCRIPTION
    }

    fn type_tag() -> u32 {
        CLS_CMFORMATDESCRIPTION
    }

    fn kind() -> TypeKind {
        TypeKind::CF
    }
}

impl CFTypeInterface for CMVideoFormatDescription {

}

impl CMFormatDescriptionInterface for CMVideoFormatDescription {

}

impl CMVideoFormatDescriptionInterface for CMVideoFormatDescription {

}

impl Type for CMMuxedFormatDescription {
    open spec fn type_class() -> u32 {
        CLS_CMFORMATDESCRIPTION
    }

    fn type_tag() -> u32 {
        CLS_CMFORMATDESCRIPTION
    }

    fn kind() -> TypeKind {
        TypeKind::CF
    }
}

impl CFTypeInterface for CMMuxedFormatDescription {

}

impl CMFormatDescriptionInterface for CMMuxedFormatDescription {

}

impl CMMuxedFormatDescriptionInterface for CMMuxedFormatDescription {

}

impl Type for CMMetadataFormatDescription {
    open spec fn type_class() -> u32 {
        CLS_CMFORMATDESCRIPTION
    }

    fn type_tag() -> u32 {
        CLS_CMFORMATDESCRIPTION
    }

    fn kind() -> TypeKind {
        TypeKind::CF
    }
}

impl CFTypeInterface for CMMetadataFormatDescription {

}

impl CMFormatDescriptionInterface for CMMetadataFormatDescription {

}

impl CMMetadataFormatDescriptionInterface for CMMetadataFormatDescription {

}

impl Type for CMTextFormatDescription {
    open spec fn type_class() -> u32 {
        CLS_CMFORMATDESCRIPTION
    }

    fn type_tag() -> u32 {
        CLS_CMFORMATDESCRIPTION
    }

    fn kind() -> TypeKind {
        TypeKind::CF
    }
}

impl CFTypeInterface for CMTextFormatDescription {

}

impl CMFormatDescriptionInterface for CMTextFormatDescription {

}

impl CMTextFormatDescriptionInterface for CMTextFormatDescription {

}

impl Type for CMTimeCodeFormatDescription {
    open spec fn type_class() -> u32 {
        CLS_CMFORMATDESCRIPTION
    }

    fn type_tag() -> u32 {
        CLS_CMFORMATDESCRIPTION
    }

    fn kind() -> TypeKind {
        TypeKind::CF
    }
}

impl CFTypeInterface for CMTimeCodeFormatDescription {

}

impl CMFormatDescriptionInterface for CMTimeCodeFormatDescription {

}

impl CMTimeCodeFormatDescriptionInterface for CMTimeCodeFormatDescription {

}

impl Type for CMClosedCaptionFormatDescription {
    open spec fn type_class() -> u32 {
        CLS_CMFORMATDESCRIPTION
    }

    fn type_tag() -> u32 {
        CLS_CMFORMATDESCRIPTION
    }

    fn kind() -> TypeKind {
        TypeKind::CF
    }
}

impl CFTypeInterface for CMClosedCaptionFormatDescription {

}

impl CMFormatDescriptionInterface for CMClosedCaptionFormatDescription {

}

impl CMClosedCaptionFormatDescriptionInterface for CMClosedCaptionFormatDescription {

}

/// A format description sorted into its media family; codes without a
/// family of their own, the subtitle code among them, stay unsorted.
pub enum TypedCMFormatDescription {
    Audio(Ptr<CMAudioFormatDescription, Retained>),
    Video(Ptr<CMVideoFormatDescription, Retained>),
    Muxed(Ptr<CMMuxedFormatDescription, Retained>),
    Metadata(Ptr<CMMetadataFormatDescription, Retained>),
    Text(Ptr<CMTextFormatDescription, Retained>),
    TimeCode(Ptr<CMTimeCodeFormatDescription, Retained>),
    ClosedCaption(Ptr<CMClosedCaptionFormatDescription, Retained>),
    Unknown(Ptr<CMFormatDescription, Retained>),
}

impl TypedCMFormatDescription {
    /// The identity of the description inside, whichever family it was
    /// sorted into.
    pub open spec fn inner_id(self) -> int {
        match self {
            TypedCMFormatDescription::Audio(p) => p.id(),
            TypedCMFormatDescription::Video(p) => p.id(),
            TypedCMFormatDescription::Muxed(p) => p.id(),
            TypedCMFormatDescription::Metadata(p) => p.id(),
            TypedCMFormatDescription::Text(p) => p.id(),
            TypedCMFormatDescription::TimeCode(p) => p.id(),
            TypedCMFormatDescription::ClosedCaption(p) => p.id(),
            TypedCMFormatDescription::Unknown(p) => p.id(),
        }
    }

    /// Sort a description into its media family by its code: the
    /// identity is kept, the ownership moves into the sorted value, and
    /// the family follows the code exactly.
    pub fn from(rt: &Runtime, desc: Ptr<CMFormatDescription, Retained>) -> (t:
        TypedCMFormatDescription)
        requires
            rt.inv(),
            desc.wf(*rt),
        ensures
            t.inner_id() == desc.id(),
            t is Audio <==> rt.code_of(desc.id()) == MEDIA_CODE_AUDIO,
            t is Video <==> rt.code_of(desc.id()) == MEDIA_CODE_VIDEO,
            t is Muxed <==> rt.code_of(desc.id()) == MEDIA_CODE_MUXED,
            t is Metadata <==> rt.code_of(desc.id()) == MEDIA_CODE_METADATA,
            t is Text <==> rt.code_of(desc.id()) == MEDIA_CODE_TEXT,
            t is TimeCode <==> rt.code_of(desc.id()) == MEDIA_CODE_TIME_CODE,
            t is ClosedCaption <==> rt.code_of(desc.id()) == MEDIA_CODE_CLOSED_CAPTION,
    {
        let code = rt.code_value(desc.as_raw().index());
        let raw = desc.as_raw();
        if code == MEDIA_CODE_AUDIO {
            TypedCMFormatDescription::Audio(Ptr::from_raw_unchecked(raw))
        } else if code == MEDIA_CODE_VIDEO {
            TypedCMFormatDescription::Video(Ptr::from_raw_unchecked(raw))
        } else if code == MEDIA_CODE_MUXED {
            TypedCMFormatDescription::Muxed(Ptr::from_raw_unchecked(raw))
        } else if code == MEDIA_CODE_METADATA {
            TypedCMFormatDescription::Metadata(Ptr::from_raw_unchecked(raw))
        } else if code == MEDIA_CODE_TEXT {
            TypedCMFormatDescription::Text(Ptr::from_raw_unchecked(raw))
        } else if code == MEDIA_CODE_TIME_CODE {
            TypedCMFormatDescription::TimeCode(Ptr::from_raw_unchecked(raw))
        } else if code == MEDIA_CODE_CLOSED_CAPTION {
            TypedCMFormatDescription::ClosedCaption(Ptr::from_raw_unchecked(raw))
        } else {
            TypedCMFormatDescription::Unknown(desc)
        }
    }
}

/// Protocol operations of CF objects, dispatched through the CF calls.
impl<T: CFTypeInterface, O: Ownership> Ptr<T, O> {
    /// CFEqual: protocol-level equality of two CF objects.
    pub fn cf_equal<OtherT: CFTypeInterface, OtherO: Ownership>(
        &self,
        rt: &Runtime,
        other: &Ptr<OtherT, OtherO>,
    ) -> (r: bool)
        requires
            rt.inv(),
            self.wf(*rt),
            other.wf(*rt),
        ensures
            r == rt.obj_eq(self.id(), other.id()),
    {
        rt.ids_equal(self.as_raw().index(), other.as_raw().index())
    }

    /// CFGetRetainCount: the count of references the store records.
    pub fn retain_count(&self, rt: &Runtime) -> (n: u64)
        requires
            rt.inv(),
            self.wf(*rt),
        ensures
            n == rt.rc(self.id()),
    {
        rt.rc_count(self.as_raw().index())
    }

    /// CFHash: the protocol-level hash.
    pub fn cf_hash(&self, rt: &Runtime) -> (h: usize)
        requires
            rt.inv(),
            self.wf(*rt),
        ensures
            h == rt.obj_hash(self.id()),
    {
        rt.hash_value(self.as_raw().index())
    }

    /// CFGetTypeID: the type identifier of the object's class.
    pub fn cf_type_id(&self, rt: &Runtime) -> (t: CFTypeID)
        requires
            rt.inv(),
            self.wf(*rt),
        ensures
            t.0 == rt.class_of(self.id()),
    {
        CFTypeID(rt.class_tag(self.as_raw().index()))
    }
}

} // verus!
