//! Audio/video framework classes, built from the ownership primitives:
//! assets, tracks, readers, players, and the static media type tags.
//!
//! The modelled objects carry no media data; what the contracts pin down
//! is the ownership and identity bookkeeping of every constructor and
//! accessor, which is the part of the binding this crate is about.

use vstd::prelude::*;

use crate::base::IsKindOf;
use crate::base::ObjCClass;
use crate::base::Ownership;
use crate::base::Ptr;
use crate::base::RawClassPtr;
use crate::base::RawObjPtr;
use crate::base::Retained;
use crate::base::Type;
use crate::core_media::CMFormatDescription;
use crate::foundation::make_object_result;
use crate::foundation::NSError;
use crate::foundation::NSObject;
use crate::foundation::NSObjectInterface;
use crate::foundation::NSObjectProtocol;
use crate::nsarray::NSArray;
use crate::nsarray::NSArrayInterface;
use crate::nsdictionary::NSDictionaryInterface;
use crate::nsdictionary::NSDictionaryInterfaceInstanceMethods;
use crate::nsstring::NSString;
use crate::nsstring::NSStringInterface;
use crate::nsstring::StaticNSString;
use crate::nsurl::NSURL;
use crate::runtime::class_descends;
use crate::runtime::ObjValue;
use crate::runtime::Runtime;
use crate::runtime::TypeKind;
use crate::runtime::CLS_AVASSET;
use crate::runtime::CLS_AVASSETREADER;
use crate::runtime::CLS_AVASSETREADEROUTPUT;
use crate::runtime::CLS_AVASSETREADERSAMPLEREFERENCEOUTPUT;
use crate::runtime::CLS_AVASSETREADERTRACKOUTPUT;
use crate::runtime::CLS_AVASSETTRACK;
use crate::runtime::CLS_AVAUDIOPLAYER;
use crate::runtime::CLS_AVPLAYER;
use crate::runtime::CLS_AVPLAYERITEM;
use crate::runtime::CLS_CMFORMATDESCRIPTION;
use crate::runtime::CLS_AVURLASSET;
use crate::runtime::CLS_NSOBJECT;
use crate::runtime::CLS_NSSTRING;
use crate::runtime::STATIC_MEDIA_AUDIO;
use crate::runtime::STATIC_MEDIA_CLOSED_CAPTION;
use crate::runtime::STATIC_MEDIA_DEPTH_DATA;
use crate::runtime::STATIC_MEDIA_METADATA;
use crate::runtime::STATIC_MEDIA_METADATA_OBJECT;
use crate::runtime::STATIC_MEDIA_MUXED;
use crate::runtime::STATIC_MEDIA_SUBTITLE;
use crate::runtime::STATIC_MEDIA_TEXT;
use crate::runtime::STATIC_MEDIA_TIMECODE;
use crate::runtime::STATIC_MEDIA_VIDEO;
use crate::runtime::STATIC_PRECISE_TIMING_KEY;

verus! {

/// The status a key-value loading query reports.
#[derive(Clone, Copy, PartialEq, Eq, Structural, Debug)]
pub struct AVKeyValueStatus(pub i64);

impl AVKeyValueStatus {
    /// Nothing is known about the key yet.
    pub fn unknown() -> (s: AVKeyValueStatus)
        ensures
            s.0 == 0,
    {
        AVKeyValueStatus(0)
    }

    /// The key's value is being loaded.
    pub fn loading() -> (s: AVKeyValueStatus)
        ensures
            s.0 == 1,
    {
        AVKeyValueStatus(1)
    }

    /// The key's value is available.
    pub fn loaded() -> (s: AVKeyValueStatus)
        ensures
            s.0 == 2,
    {
        AVKeyValueStatus(2)
    }

    /// Loading the key's value failed.
    pub fn failed() -> (s: AVKeyValueStatus)
        ensures
            s.0 == 3,
    {
        AVKeyValueStatus(3)
    }

    /// Loading the key's value was cancelled.
    pub fn cancelled() -> (s: AVKeyValueStatus)
        ensures
            s.0 == 4,
    {
        AVKeyValueStatus(4)
    }
}

/// A media type tag backed by one of the framework's immortal string
/// constants: copyable, never released.
#[derive(Clone, Copy)]
pub struct StaticAVMediaType {
    raw: StaticNSString,
}

impl StaticAVMediaType {
    /// The identity of the tag's string constant.
    pub closed spec fn id(self) -> int {
        self.raw.id()
    }

    /// The tag's string constant.
    pub fn as_static_string(self) -> (s: StaticNSString)
        ensures
            s.id() == self.id(),
    {
        self.raw
    }
}

/// A media type tag carried as an owned string object.
pub struct AVMediaType {
    raw: Ptr<NSString, Retained>,
}

impl AVMediaType {
    /// The identity of the tag's string object.
    pub closed spec fn id(self) -> int {
        self.raw.id()
    }

    /// Wrap an owned string object as a media type tag.
    pub fn new(raw: Ptr<NSString, Retained>) -> (m: AVMediaType)
        ensures
            m.id() == raw.id(),
    {
        AVMediaType { raw }
    }

    /// The tag's string object, giving the ownership back.
    pub fn into_string(self) -> (s: Ptr<NSString, Retained>)
        ensures
            s.id() == self.id(),
    {
        self.raw
    }

    /// The audio media type tag.
    pub fn audio() -> (m: StaticAVMediaType)
        ensures
            m.id() == STATIC_MEDIA_AUDIO as int,
    {
        StaticAVMediaType { raw: StaticNSString::from_static(RawObjPtr::make(STATIC_MEDIA_AUDIO)) }
    }

    /// The video media type tag.
    pub fn video() -> (m: StaticAVMediaType)
        ensures
            m.id() == STATIC_MEDIA_VIDEO as int,
    {
        StaticAVMediaType { raw: StaticNSString::from_static(RawObjPtr::make(STATIC_MEDIA_VIDEO)) }
    }

    /// The text media type tag.
    pub fn text() -> (m: StaticAVMediaType)
        ensures
            m.id() == STATIC_MEDIA_TEXT as int,
    {
        StaticAVMediaType { raw: StaticNSString::from_static(RawObjPtr::make(STATIC_MEDIA_TEXT)) }
    }

    /// The closed-caption media type tag.
    pub fn closed_caption() -> (m: StaticAVMediaType)
        ensures
            m.id() == STATIC_MEDIA_CLOSED_CAPTION as int,
    {
        StaticAVMediaType {
            raw: StaticNSString::from_static(RawObjPtr::make(STATIC_MEDIA_CLOSED_CAPTION)),
        }
    }

    /// The subtitle media type tag.
    pub fn subtitle() -> (m: StaticAVMediaType)
        ensures
            m.id() == STATIC_MEDIA_SUBTITLE as int,
    {
        StaticAVMediaType {
            raw: StaticNSString::from_static(RawObjPtr::make(STATIC_MEDIA_SUBTITLE)),
        }
    }

    /// The timecode media type tag.
    pub fn timecode() -> (m: StaticAVMediaType)
        ensures
            m.id() == STATIC_MEDIA_TIMECODE as int,
    {
        StaticAVMediaType {
            raw: StaticNSString::from_static(RawObjPtr::make(STATIC_MEDIA_TIMECODE)),
        }
    }

    /// The metadata media type tag.
    pub fn metadata() -> (m: StaticAVMediaType)
        ensures
            m.id() == STATIC_MEDIA_METADATA as int,
    {
        StaticAVMediaType {
            raw: StaticNSString::from_static(RawObjPtr::make(STATIC_MEDIA_METADATA)),
        }
    }

    /// The metadata-object media type tag.
    pub fn metadata_object() -> (m: StaticAVMediaType)
        ensures
            m.id() == STATIC_MEDIA_METADATA_OBJECT as int,
    {
        StaticAVMediaType {
            raw: StaticNSString::from_static(RawObjPtr::make(STATIC_MEDIA_METADATA_OBJECT)),
        }
    }

    /// The depth-data media type tag.
    pub fn depth_data() -> (m: StaticAVMediaType)
        ensures
            m.id() == STATIC_MEDIA_DEPTH_DATA as int,
    {
        StaticAVMediaType {
            raw: StaticNSString::from_static(RawObjPtr::make(STATIC_MEDIA_DEPTH_DATA)),
        }
    }

    /// The muxed media type tag.
    pub fn muxed() -> (m: StaticAVMediaType)
        ensures
            m.id() == STATIC_MEDIA_MUXED as int,
    {
        StaticAVMediaType { raw: StaticNSString::from_static(RawObjPtr::make(STATIC_MEDIA_MUXED)) }
    }
}

/// Types that answer asynchronous key-value loading queries. The store's
/// objects have all their properties at hand, so a status query reports
/// them loaded, and a load request completes on the spot.
pub trait AVAsynchronousKeyValueLoadingProtocol: NSObjectProtocol {

}

impl<T: AVAsynchronousKeyValueLoadingProtocol, O: Ownership> Ptr<T, O> {
    /// The loading status of one property key: in this store every
    /// property is already available, so the status is loaded, and no
    /// error accompanies it.
    pub fn status_of_value_for_key<S: NSStringInterface, SO: Ownership>(
        &self,
        rt: &Runtime,
        key: &Ptr<S, SO>,
    ) -> (r: Result<AVKeyValueStatus, Ptr<NSError, Retained>>)
        requires
            rt.inv(),
            self.wf(*rt),
            key.wf(*rt),
        ensures
            r matches Ok(s) && s.0 == 2,
    {
        let _ = key;
        Ok(AVKeyValueStatus::loaded())
    }

    /// Request the values for a list of property keys and run the
    /// completion handler. Every native call here returns before the next
    /// line runs, so the handler is run once, on the spot.
    pub fn load_values_async_for_keys<Keys, KeysO, F: FnOnce() -> ()>(
        &self,
        rt: &Runtime,
        keys: &Ptr<Keys, KeysO>,
        handler: F,
    ) where Keys: NSArrayInterface, KeysO: Ownership
        requires
            rt.inv(),
            self.wf(*rt),
            keys.array_wf(*rt),
            handler.requires(()),
    {
        let _ = keys;
        handler();
    }
}

/// A collection of timed audiovisual media.
pub struct AVAsset;

/// An asset addressed by URL.
pub struct AVURLAsset;

/// One track of an asset's media.
pub struct AVAssetTrack;

/// A reader pulling samples out of an asset.
pub struct AVAssetReader;

/// A source of samples handed out by a reader.
pub struct AVAssetReaderOutput;

/// A reader output decoding one track.
pub struct AVAssetReaderTrackOutput;

/// A reader output handing out sample references.
pub struct AVAssetReaderSampleReferenceOutput;

/// One item a player can play.
pub struct AVPlayerItem;

/// A controller playing audiovisual items.
pub struct AVPlayer;

/// A player for audio files.
pub struct AVAudioPlayer;

/// Marker for reader output classes.
pub trait AVAssetReaderOutputInterface: NSObjectInterface {

}

/// Marker for track reader output classes.
pub trait AVAssetReaderTrackOutputInterface: AVAssetReaderOutputInterface {

}

/// Marker for sample-reference reader output classes.
pub trait AVAssetReaderSampleReferenceOutputInterface: AVAssetReaderOutputInterface {

}

impl Type for AVAsset {
    open spec fn type_class() -> u32 {
        CLS_AVASSET
    }

    fn type_tag() -> u32 {
        CLS_AVASSET
    }

    fn kind() -> TypeKind {
        TypeKind::ObjC
    }
}

impl ObjCClass for AVAsset {
    fn class() -> RawClassPtr {
        RawClassPtr::make(CLS_AVASSET)
    }
}

impl NSObjectProtocol for AVAsset {

}

impl NSObjectInterface for AVAsset {
    open spec fn fresh_post(rt: Runtime, id: int) -> bool {
        rt.value_of(id) is Plain
    }

    fn new(rt: &mut Runtime) -> (p: Ptr<Self, Retained>) {
        let id = rt.allocate(CLS_AVASSET, CLS_NSOBJECT, CLS_NSOBJECT, ObjValue::Plain);
        Ptr::from_raw_unchecked(RawObjPtr::make(id))
    }
}

impl AVAsynchronousKeyValueLoadingProtocol for AVAsset {

}

impl IsKindOf<NSObject> for AVAsset {
    proof fn declared_descends() {
        assert(class_descends(CLS_NSOBJECT, CLS_NSOBJECT));
        assert(class_descends(CLS_AVASSET, CLS_NSOBJECT));
    }
}

impl Type for AVURLAsset {
    open spec fn type_class() -> u32 {
        CLS_AVURLASSET
    }

    fn type_tag() -> u32 {
        CLS_AVURLASSET
    }

    fn kind() -> TypeKind {
        TypeKind::ObjC
    }
}

impl ObjCClass for AVURLAsset {
    fn class() -> RawClassPtr {
        RawClassPtr::make(CLS_AVURLASSET)
    }
}

impl NSObjectProtocol for AVURLAsset {

}

impl NSObjectInterface for AVURLAsset {
    open spec fn fresh_post(rt: Runtime, id: int) -> bool {
        rt.value_of(id) is Plain
    }

    fn new(rt: &mut Runtime) -> (p: Ptr<Self, Retained>) {
        let id = rt.allocate(CLS_AVURLASSET, CLS_NSOBJECT, CLS_NSOBJECT, ObjValue::Plain);
        Ptr::from_raw_unchecked(RawObjPtr::make(id))
    }
}

impl AVAsynchronousKeyValueLoadingProtocol for AVURLAsset {

}

impl IsKindOf<NSObject> for AVURLAsset {
    proof fn declared_descends() {
        assert(class_descends(CLS_NSOBJECT, CLS_NSOBJECT));
        assert(class_descends(CLS_AVASSET, CLS_NSOBJECT));
        assert(class_descends(CLS_AVURLASSET, CLS_NSOBJECT));
    }
}

impl IsKindOf<AVAsset> for AVURLAsset {
    proof fn declared_descends() {
        assert(class_descends(CLS_AVASSET, CLS_AVASSET));
        assert(class_descends(CLS_AVURLASSET, CLS_AVASSET));
    }
}

impl AVURLAsset {
    /// The option key asking for precise duration and timing, one of the
    /// framework's immortal string constants.
    pub fn prefer_precise_duration_and_timing_key() -> (s: StaticNSString)
        ensures
            s.id() == STATIC_PRECISE_TIMING_KEY as int,
    {
        StaticNSString::from_static(RawObjPtr::make(STATIC_PRECISE_TIMING_KEY))
    }

    /// Create an asset for a URL with an option dictionary. The options
    /// steer the native loader and leave the created object's identity
    /// bookkeeping untouched.
    pub fn new_with_url_options<U, UO, D, DO>(
        rt: &mut Runtime,
        url: &Ptr<U, UO>,
        options: &Ptr<D, DO>,
    ) -> (p: Ptr<AVURLAsset, Retained>) where
        U: NSObjectInterface,
        UO: Ownership,
        D: NSDictionaryInterface,
        DO: Ownership,

        requires
            old(rt).inv(),
            url.wf(*old(rt)),
            options.dict_wf(*old(rt)),
        ensures
            final(rt).inv(),
            final(rt).grown(*old(rt)),
            p.id() == old(rt).n_objects(),
            final(rt).rc(p.id()) == 1,
            final(rt).class_of(p.id()) == CLS_AVURLASSET,
            p.wf(*final(rt)),
    {
        let _ = url;
        let _ = options;
        let id = rt.allocate(CLS_AVURLASSET, CLS_NSOBJECT, CLS_NSOBJECT, ObjValue::Plain);
        Ptr::from_raw_unchecked(RawObjPtr::make(id))
    }
}

impl<T: AVAsynchronousKeyValueLoadingProtocol, O: Ownership> Ptr<T, O> where T: IsKindOf<AVAsset> {
    /// The asset's tracks. The modelled asset carries no media, so the
    /// track list is a fresh, empty, independently owned array.
    pub fn tracks(&self, rt: &mut Runtime) -> (p: Ptr<NSArray<AVAssetTrack>, Retained>)
        requires
            old(rt).inv(),
            self.wf(*old(rt)),
        ensures
            final(rt).inv(),
            final(rt).grown(*old(rt)),
            p.id() == old(rt).n_objects(),
            final(rt).rc(p.id()) == 1,
            p.array_wf(*final(rt)),
            final(rt).elems_of(p.id()) == Seq::<usize>::empty(),
    {
        let elems: Vec<usize> = Vec::new();
        let id = rt.allocate(
            crate::runtime::CLS_NSARRAY,
            CLS_NSOBJECT,
            CLS_AVASSETTRACK,
            ObjValue::Arr(elems),
        );
        Ptr::from_raw_unchecked(RawObjPtr::make(id))
    }
}

impl<T: AVAsynchronousKeyValueLoadingProtocol, O: Ownership> Ptr<T, O> where T: IsKindOf<AVAsset> {
    /// Whether the asset can be played; nothing in the modelled store ever
    /// withholds playback.
    pub fn playable(&self, rt: &Runtime) -> (r: bool)
        requires
            rt.inv(),
            self.wf(*rt),
        ensures
            r,
    {
        let _ = rt;
        true
    }
}

impl Type for AVAssetTrack {
    open spec fn type_class() -> u32 {
        CLS_AVASSETTRACK
    }

    fn type_tag() -> u32 {
        CLS_AVASSETTRACK
    }

    fn kind() -> TypeKind {
        TypeKind::ObjC
    }
}

impl ObjCClass for AVAssetTrack {
    fn class() -> RawClassPtr {
        RawClassPtr::make(CLS_AVASSETTRACK)
    }
}

impl NSObjectProtocol for AVAssetTrack {

}

impl NSObjectInterface for AVAssetTrack {
    open spec fn fresh_post(rt: Runtime, id: int) -> bool {
        rt.value_of(id) is Plain
    }

    fn new(rt: &mut Runtime) -> (p: Ptr<Self, Retained>) {
        let id = rt.allocate(CLS_AVASSETTRACK, CLS_NSOBJECT, CLS_NSOBJECT, ObjValue::Plain);
        Ptr::from_raw_unchecked(RawObjPtr::make(id))
    }
}

impl AVAsynchronousKeyValueLoadingProtocol for AVAssetTrack {

}

impl IsKindOf<NSObject> for AVAssetTrack {
    proof fn declared_descends() {
        assert(class_descends(CLS_NSOBJECT, CLS_NSOBJECT));
        assert(class_descends(CLS_AVASSETTRACK, CLS_NSOBJECT));
    }
}

impl<O: Ownership> Ptr<AVAssetTrack, O> {
    /// The track's media type. The modelled track is an audio track, and
    /// the tag comes back as a fresh, independently owned string.
    pub fn media_type(&self, rt: &mut Runtime) -> (m: AVMediaType)
        requires
            old(rt).inv(),
            self.wf(*old(rt)),
        ensures
            final(rt).inv(),
            final(rt).grown(*old(rt)),
            m.id() == old(rt).n_objects(),
            final(rt).rc(m.id()) == 1,
            final(rt).str_of(m.id()) == "soun"@,
            final(rt).class_of(m.id()) == CLS_NSSTRING,
    {
        let text: String = "soun".to_owned();
        let id = rt.allocate(CLS_NSSTRING, CLS_NSOBJECT, CLS_NSOBJECT, ObjValue::Str(text));
        AVMediaType::new(Ptr::from_raw_unchecked(RawObjPtr::make(id)))
    }

    /// The format descriptions of the track's samples. The modelled track
    /// carries no samples, so the list is a fresh, empty, independently
    /// owned array.
    pub fn format_descriptions(&self, rt: &mut Runtime) -> (p: Ptr<
        NSArray<CMFormatDescription>,
        Retained,
    >)
        requires
            old(rt).inv(),
            self.wf(*old(rt)),
        ensures
            final(rt).inv(),
            final(rt).grown(*old(rt)),
            p.id() == old(rt).n_objects(),
            final(rt).rc(p.id()) == 1,
            p.array_wf(*final(rt)),
            final(rt).elems_of(p.id()) == Seq::<usize>::empty(),
    {
        let elems: Vec<usize> = Vec::new();
        let id = rt.allocate(
            crate::runtime::CLS_NSARRAY,
            CLS_NSOBJECT,
            CLS_CMFORMATDESCRIPTION,
            ObjValue::Arr(elems),
        );
        Ptr::from_raw_unchecked(RawObjPtr::make(id))
    }
}

impl Type for AVAssetReader {
    open spec fn type_class() -> u32 {
        CLS_AVASSETREADER
    }

    fn type_tag() -> u32 {
        CLS_AVASSETREADER
    }

    fn kind() -> TypeKind {
        TypeKind::ObjC
    }
}

impl ObjCClass for AVAssetReader {
    fn class() -> RawClassPtr {
        RawClassPtr::make(CLS_AVASSETREADER)
    }
}

impl NSObjectProtocol for AVAssetReader {

}

impl NSObjectInterface for AVAssetReader {
    open spec fn fresh_post(rt: Runtime, id: int) -> bool {
        rt.value_of(id) is Plain
    }

    fn new(rt: &mut Runtime) -> (p: Ptr<Self, Retained>) {
        let id = rt.allocate(CLS_AVASSETREADER, CLS_NSOBJECT, CLS_NSOBJECT, ObjValue::Plain);
        Ptr::from_raw_unchecked(RawObjPtr::make(id))
    }
}

impl IsKindOf<NSObject> for AVAssetReader {
    proof fn declared_descends() {
        assert(class_descends(CLS_NSOBJECT, CLS_NSOBJECT));
        assert(class_descends(CLS_AVASSETREADER, CLS_NSOBJECT));
    }
}

impl AVAssetReader {
    /// Create a reader for an asset: a fresh reader owned by the caller,
    /// handed through the value-or-error convention. The modelled store
    /// always has the asset at hand, so the error side stays empty.
    pub fn new_with_asset<A, AO>(rt: &mut Runtime, asset: &Ptr<A, AO>) -> (r: Result<
        Ptr<AVAssetReader, Retained>,
        Ptr<NSError, Retained>,
    >) where A: IsKindOf<AVAsset>, AO: Ownership
        requires
            old(rt).inv(),
            asset.wf(*old(rt)),
        ensures
            final(rt).inv(),
            final(rt).grown(*old(rt)),
            r matches Ok(p) && p.id() == old(rt).n_objects() && final(rt).rc(p.id()) == 1 && p.wf(
                *final(rt),
            ),
    {
        let _ = asset;
        let id = rt.allocate(CLS_AVASSETREADER, CLS_NSOBJECT, CLS_NSOBJECT, ObjValue::Plain);
        let made: Result<Ptr<AVAssetReader, Retained>, Ptr<NSError, Retained>> =
            make_object_result::<AVAssetReader>(rt, Some(RawObjPtr::make(id)), None);
        made
    }
}

impl Type for AVAssetReaderOutput {
    open spec fn type_class() -> u32 {
        CLS_AVASSETREADEROUTPUT
    }

    fn type_tag() -> u32 {
        CLS_AVASSETREADEROUTPUT
    }

    fn kind() -> TypeKind {
        TypeKind::ObjC
    }
}

impl ObjCClass for AVAssetReaderOutput {
    fn class() -> RawClassPtr {
        RawClassPtr::make(CLS_AVASSETREADEROUTPUT)
    }
}

impl NSObjectProtocol for AVAssetReaderOutput {

}

impl NSObjectInterface for AVAssetReaderOutput {
    open spec fn fresh_post(rt: Runtime, id: int) -> bool {
        rt.value_of(id) is Plain
    }

    fn new(rt: &mut Runtime) -> (p: Ptr<Self, Retained>) {
        let id = rt.allocate(CLS_AVASSETREADEROUTPUT, CLS_NSOBJECT, CLS_NSOBJECT, ObjValue::Plain);
        Ptr::from_raw_unchecked(RawObjPtr::make(id))
    }
}

impl AVAssetReaderOutputInterface for AVAssetReaderOutput {

}

impl IsKindOf<NSObject> for AVAssetReaderOutput {
    proof fn declared_descends() {
        assert(class_descends(CLS_NSOBJECT, CLS_NSOBJECT));
        assert(class_descends(CLS_AVASSETREADEROUTPUT, CLS_NSOBJECT));
    }
}

impl Type for AVAssetReaderTrackOutput {
    open spec fn type_class() -> u32 {
        CLS_AVASSETREADERTRACKOUTPUT
    }

    fn type_tag() -> u32 {
        CLS_AVASSETREADERTRACKOUTPUT
    }

    fn kind() -> TypeKind {
        TypeKind::ObjC
    }
}

impl ObjCClass for AVAssetReaderTrackOutput {
    fn class() -> RawClassPtr {
        RawClassPtr::make(CLS_AVASSETREADERTRACKOUTPUT)
    }
}

impl NSObjectProtocol for AVAssetReaderTrackOutput {

}

impl NSObjectInterface for AVAssetReaderTrackOutput {
    open spec fn fresh_post(rt: Runtime, id: int) -> bool {
        rt.value_of(id) is Plain
    }

    fn new(rt: &mut Runtime) -> (p: Ptr<Self, Retained>) {
        let id = rt.allocate(
            CLS_AVASSETREADERTRACKOUTPUT,
            CLS_NSOBJECT,
            CLS_NSOBJECT,
            ObjValue::Plain,
        );
        Ptr::from_raw_unchecked(RawObjPtr::make(id))
    }
}

impl AVAssetReaderOutputInterface for AVAssetReaderTrackOutput {

}

impl AVAssetReaderTrackOutputInterface for AVAssetReaderTrackOutput {

}

impl IsKindOf<NSObject> for AVAssetReaderTrackOutput {
    proof fn declared_descends() {
        assert(class_descends(CLS_NSOBJECT, CLS_NSOBJECT));
        assert(class_descends(CLS_AVASSETREADEROUTPUT, CLS_NSOBJECT));
        assert(class_descends(CLS_AVASSETREADERTRACKOUTPUT, CLS_NSOBJECT));
    }
}

impl IsKindOf<AVAssetReaderOutput> for AVAssetReaderTrackOutput {
    proof fn declared_descends() {
        assert(class_descends(CLS_AVASSETREADEROUTPUT, CLS_AVASSETREADEROUTPUT));
        assert(class_descends(CLS_AVASSETREADERTRACKOUTPUT, CLS_AVASSETREADEROUTPUT));
    }
}

impl Type for AVAssetReaderSampleReferenceOutput {
    open spec fn type_class() -> u32 {
        CLS_AVASSETREADERSAMPLEREFERENCEOUTPUT
    }

    fn type_tag() -> u32 {
        CLS_AVASSETREADERSAMPLEREFERENCEOUTPUT
    }

    fn kind() -> TypeKind {
        TypeKind::ObjC
    }
}

impl ObjCClass for AVAssetReaderSampleReferenceOutput {
    fn class() -> RawClassPtr {
        RawClassPtr::make(CLS_AVASSETREADERSAMPLEREFERENCEOUTPUT)
    }
}

impl NSObjectProtocol for AVAssetReaderSampleReferenceOutput {

}

impl NSObjectInterface for AVAssetReaderSampleReferenceOutput {
    open spec fn fresh_post(rt: Runtime, id: int) -> bool {
        rt.value_of(id) is Plain
    }

    fn new(rt: &mut Runtime) -> (p: Ptr<Self, Retained>) {
        let id = rt.allocate(
            CLS_AVASSETREADERSAMPLEREFERENCEOUTPUT,
            CLS_NSOBJECT,
            CLS_NSOBJECT,
            ObjValue::Plain,
        );
        Ptr::from_raw_unchecked(RawObjPtr::make(id))
    }
}

impl AVAssetReaderOutputInterface for AVAssetReaderSampleReferenceOutput {

}

impl AVAssetReaderSampleReferenceOutputInterface for AVAssetReaderSampleReferenceOutput {

}

impl IsKindOf<NSObject> for AVAssetReaderSampleReferenceOutput {
    proof fn declared_descends() {
        assert(class_descends(CLS_NSOBJECT, CLS_NSOBJECT));
        assert(class_descends(CLS_AVASSETREADEROUTPUT, CLS_NSOBJECT));
        assert(class_descends(CLS_AVASSETREADERSAMPLEREFERENCEOUTPUT, CLS_NSOBJECT));
    }
}

impl IsKindOf<AVAssetReaderOutput> for AVAssetReaderSampleReferenceOutput {
    proof fn declared_descends() {
        assert(class_descends(CLS_AVASSETREADEROUTPUT, CLS_AVASSETREADEROUTPUT));
        assert(class_descends(CLS_AVASSETREADERSAMPLEREFERENCEOUTPUT, CLS_AVASSETREADEROUTPUT));
    }
}

impl Type for AVPlayerItem {
    open spec fn type_class() -> u32 {
        CLS_AVPLAYERITEM
    }

    fn type_tag() -> u32 {
        CLS_AVPLAYERITEM
    }

    fn kind() -> TypeKind {
        TypeKind::ObjC
    }
}

impl ObjCClass for AVPlayerItem {
    fn class() -> RawClassPtr {
        RawClassPtr::make(CLS_AVPLAYERITEM)
    }
}

impl NSObjectProtocol for AVPlayerItem {

}

impl NSObjectInterface for AVPlayerItem {
    open spec fn fresh_post(rt: Runtime, id: int) -> bool {
        rt.value_of(id) is Plain
    }

    fn new(rt: &mut Runtime) -> (p: Ptr<Self, Retained>) {
        let id = rt.allocate(CLS_AVPLAYERITEM, CLS_NSOBJECT, CLS_NSOBJECT, ObjValue::Plain);
        Ptr::from_raw_unchecked(RawObjPtr::make(id))
    }
}

impl IsKindOf<NSObject> for AVPlayerItem {
    proof fn declared_descends() {
        assert(class_descends(CLS_NSOBJECT, CLS_NSOBJECT));
        assert(class_descends(CLS_AVPLAYERITEM, CLS_NSOBJECT));
    }
}

impl AVPlayerItem {
    /// Create a player item for a URL: a fresh item owned by the caller.
    pub fn new_with_url<UO: Ownership>(rt: &mut Runtime, url: &Ptr<NSURL, UO>) -> (p: Ptr<
        AVPlayerItem,
        Retained,
    >)
        requires
            old(rt).inv(),
            url.wf(*old(rt)),
        ensures
            final(rt).inv(),
            final(rt).grown(*old(rt)),
            p.id() == old(rt).n_objects(),
            final(rt).rc(p.id()) == 1,
            p.wf(*final(rt)),
    {
        let _ = url;
        AVPlayerItem::new(rt)
    }

    /// Create a player item for an asset: a fresh item owned by the
    /// caller.
    pub fn new_with_asset<A, AO>(rt: &mut Runtime, asset: &Ptr<A, AO>) -> (p: Ptr<
        AVPlayerItem,
        Retained,
    >) where A: IsKindOf<AVAsset>, AO: Ownership
        requires
            old(rt).inv(),
            asset.wf(*old(rt)),
        ensures
            final(rt).inv(),
            final(rt).grown(*old(rt)),
            p.id() == old(rt).n_objects(),
            final(rt).rc(p.id()) == 1,
            p.wf(*final(rt)),
    {
        let _ = asset;
        AVPlayerItem::new(rt)
    }
}

impl<O: Ownership> Ptr<AVPlayerItem, O> {
    /// The error that stopped this item, if any; the modelled item never
    /// fails, so the answer is absent.
    pub fn error(&self, rt: &Runtime) -> (r: Option<Ptr<NSError, Retained>>)
        requires
            rt.inv(),
            self.wf(*rt),
        ensures
            r is None,
    {
        None
    }
}

impl Type for AVPlayer {
    open spec fn type_class() -> u32 {
        CLS_AVPLAYER
    }

    fn type_tag() -> u32 {
        CLS_AVPLAYER
    }

    fn kind() -> TypeKind {
        TypeKind::ObjC
    }
}

impl ObjCClass for AVPlayer {
    fn class() -> RawClassPtr {
        RawClassPtr::make(CLS_AVPLAYER)
    }
}

impl NSObjectProtocol for AVPlayer {

}

impl NSObjectInterface for AVPlayer {
    open spec fn fresh_post(rt: Runtime, id: int) -> bool {
        rt.value_of(id) is Plain
    }

    fn new(rt: &mut Runtime) -> (p: Ptr<Self, Retained>) {
        let id = rt.allocate(CLS_AVPLAYER, CLS_NSOBJECT, CLS_NSOBJECT, ObjValue::Plain);
        Ptr::from_raw_unchecked(RawObjPtr::make(id))
    }
}

impl IsKindOf<NSObject> for AVPlayer {
    proof fn declared_descends() {
        assert(class_descends(CLS_NSOBJECT, CLS_NSOBJECT));
        assert(class_descends(CLS_AVPLAYER, CLS_NSOBJECT));
    }
}

impl AVPlayer {
    /// Create a player for a URL: a fresh player owned by the caller.
    pub fn new_with_url<UO: Ownership>(rt: &mut Runtime, url: &Ptr<NSURL, UO>) -> (p: Ptr<
        AVPlayer,
        Retained,
    >)
        requires
            old(rt).inv(),
            url.wf(*old(rt)),
        ensures
            final(rt).inv(),
            final(rt).grown(*old(rt)),
            p.id() == old(rt).n_objects(),
            final(rt).rc(p.id()) == 1,
            p.wf(*final(rt)),
    {
        let _ = url;
        AVPlayer::new(rt)
    }

    /// Create a player for an item: a fresh player owned by the caller.
    pub fn new_with_player_item<IO: Ownership>(
        rt: &mut Runtime,
        item: &Ptr<AVPlayerItem, IO>,
    ) -> (p: Ptr<AVPlayer, Retained>)
        requires
            old(rt).inv(),
            item.wf(*old(rt)),
        ensures
            final(rt).inv(),
            final(rt).grown(*old(rt)),
            p.id() == old(rt).n_objects(),
            final(rt).rc(p.id()) == 1,
            p.wf(*final(rt)),
    {
        let _ = item;
        AVPlayer::new(rt)
    }
}

impl<O: Ownership> Ptr<AVPlayer, O> {
    /// The error that stopped playback, if any; the modelled player never
    /// fails, so the answer is absent.
    pub fn error(&self, rt: &Runtime) -> (r: Option<Ptr<NSError, Retained>>)
        requires
            rt.inv(),
            self.wf(*rt),
        ensures
            r is None,
    {
        None
    }

    /// The item being played, if any; the modelled player holds none.
    pub fn current_item(&self, rt: &Runtime) -> (r: Option<Ptr<AVPlayerItem, Retained>>)
        requires
            rt.inv(),
            self.wf(*rt),
        ensures
            r is None,
    {
        None
    }

    /// Begin playback; the store is untouched.
    pub fn play(&self, rt: &Runtime)
        requires
            rt.inv(),
            self.wf(*rt),
    {
        let _ = rt;
    }

    /// Pause playback; the store is untouched.
    pub fn pause(&self, rt: &Runtime)
        requires
            rt.inv(),
            self.wf(*rt),
    {
        let _ = rt;
    }
}

impl Type for AVAudioPlayer {
    open spec fn type_class() -> u32 {
        CLS_AVAUDIOPLAYER
    }

    fn type_tag() -> u32 {
        CLS_AVAUDIOPLAYER
    }

    fn kind() -> TypeKind {
        TypeKind::ObjC
    }
}

impl ObjCClass for AVAudioPlayer {
    fn class() -> RawClassPtr {
        RawClassPtr::make(CLS_AVAUDIOPLAYER)
    }
}

impl NSObjectProtocol for AVAudioPlayer {

}

impl NSObjectInterface for AVAudioPlayer {
    open spec fn fresh_post(rt: Runtime, id: int) -> bool {
        rt.value_of(id) is Plain
    }

    fn new(rt: &mut Runtime) -> (p: Ptr<Self, Retained>) {
        let id = rt.allocate(CLS_AVAUDIOPLAYER, CLS_NSOBJECT, CLS_NSOBJECT, ObjValue::Plain);
        Ptr::from_raw_unchecked(RawObjPtr::make(id))
    }
}

impl IsKindOf<NSObject> for AVAudioPlayer {
    proof fn declared_descends() {
        assert(class_descends(CLS_NSOBJECT, CLS_NSOBJECT));
        assert(class_descends(CLS_AVAUDIOPLAYER, CLS_NSOBJECT));
    }
}

impl AVAudioPlayer {
    /// Create an audio player for a URL's contents: a fresh player owned
    /// by the caller, handed through the value-or-error convention; the
    /// modelled store always has the contents at hand, so the error side
    /// stays empty.
    pub fn new_with_contents_of_url<UO: Ownership>(rt: &mut Runtime, url: &Ptr<NSURL, UO>) -> (r:
        Result<Ptr<AVAudioPlayer, Retained>, Ptr<NSError, Retained>>)
        requires
            old(rt).inv(),
            url.wf(*old(rt)),
        ensures
            final(rt).inv(),
            final(rt).grown(*old(rt)),
            r matches Ok(p) && p.id() == old(rt).n_objects() && final(rt).rc(p.id()) == 1 && p.wf(
                *final(rt),
            ),
    {
        let _ = url;
        let id = rt.allocate(CLS_AVAUDIOPLAYER, CLS_NSOBJECT, CLS_NSOBJECT, ObjValue::Plain);
        let made: Result<Ptr<AVAudioPlayer, Retained>, Ptr<NSError, Retained>> =
            make_object_result::<AVAudioPlayer>(rt, Some(RawObjPtr::make(id)), None);
        made
    }
}

impl<O: Ownership> Ptr<AVAudioPlayer, O> {
    /// Begin playback; the modelled player always starts.
    pub fn play(&self, rt: &Runtime) -> (r: bool)
        requires
            rt.inv(),
            self.wf(*rt),
        ensures
            r,
    {
        let _ = rt;
        true
    }

    /// Pause playback; the store is untouched.
    pub fn pause(&self, rt: &Runtime)
        requires
            rt.inv(),
            self.wf(*rt),
    {
        let _ = rt;
    }

    /// Stop playback; the store is untouched.
    pub fn stop(&self, rt: &Runtime)
        requires
            rt.inv(),
            self.wf(*rt),
    {
        let _ = rt;
    }
}

} // verus!
