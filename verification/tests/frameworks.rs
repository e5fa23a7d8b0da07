//! The audio/video classes over the ownership model.

use choco::avfoundation::AVAsset;
use choco::avfoundation::AVAssetReader;
use choco::avfoundation::AVAssetTrack;
use choco::avfoundation::AVAudioPlayer;
use choco::avfoundation::AVMediaType;
use choco::avfoundation::AVPlayer;
use choco::avfoundation::AVPlayerItem;
use choco::avfoundation::AVURLAsset;
use choco::base::ObjCClass;
use choco::foundation::NSObject;
use choco::foundation::NSObjectInterface;
use choco::nsdictionary::NSMutableDictionary;
use choco::nsstring::NSString;
use choco::nsstring::NSStringInterface;
use choco::nsstring::NSStringInterfaceInstanceMethods;
use choco::nsurl::NSURL;
use choco::runtime::Runtime;

#[test]
fn static_media_tags_read_their_text() {
    let rt = Runtime::new();
    assert_eq!(
        AVMediaType::audio().as_static_string().to_string(&rt).unwrap(),
        "soun"
    );
    assert_eq!(
        AVMediaType::video().as_static_string().to_string(&rt).unwrap(),
        "vide"
    );
    assert_eq!(
        AVMediaType::subtitle().as_static_string().to_string(&rt).unwrap(),
        "sbtl"
    );
    assert_eq!(
        AVMediaType::muxed().as_static_string().to_string(&rt).unwrap(),
        "muxx"
    );
}

#[test]
fn url_asset_with_options() {
    let mut rt = Runtime::new();
    let path = NSString::new_with_str(&mut rt, "/media/movie.mov");
    let url = NSURL::file_url_with_path(&mut rt, &path);
    let options: choco::base::Ptr<NSMutableDictionary<NSString, NSObject>> =
        NSMutableDictionary::new(&mut rt);
    let key = AVURLAsset::prefer_precise_duration_and_timing_key();
    assert_eq!(key.to_string(&rt).unwrap(), "AVURLAssetPreferPreciseDurationAndTimingKey");
    let asset = AVURLAsset::new_with_url_options(&mut rt, &url, &options);
    assert!(asset.is_kind_of(&rt, AVAsset::class()));
    assert!(asset.is_kind_of(&rt, NSObject::class()));
    // an asset's properties are at hand, so their status is loaded
    let status = asset.status_of_value_for_key(&rt, &path).ok().unwrap();
    assert_eq!(status, choco::avfoundation::AVKeyValueStatus::loaded());
}

#[test]
fn tracks_and_descriptions_start_empty() {
    let mut rt = Runtime::new();
    let asset = AVAsset::new(&mut rt);
    let tracks = asset.tracks(&mut rt);
    assert_eq!(tracks.count(&rt), 0);
    let track = AVAssetTrack::new(&mut rt);
    let tag = track.media_type(&mut rt);
    assert_eq!(tag.into_string().to_string(&rt).unwrap(), "soun");
    let descriptions = track.format_descriptions(&mut rt);
    assert_eq!(descriptions.count(&rt), 0);
}

#[test]
fn readers_and_players_construct() {
    let mut rt = Runtime::new();
    let asset = AVAsset::new(&mut rt);
    let reader = AVAssetReader::new_with_asset(&mut rt, &asset).ok().unwrap();
    assert!(reader.is_kind_of(&rt, AVAssetReader::class()));
    let path = NSString::new_with_str(&mut rt, "/media/song.m4a");
    let url = NSURL::file_url_with_path(&mut rt, &path);
    let item = AVPlayerItem::new_with_url(&mut rt, &url);
    assert!(item.error(&rt).is_none());
    let player = AVPlayer::new_with_player_item(&mut rt, &item);
    assert!(player.error(&rt).is_none());
    assert!(player.current_item(&rt).is_none());
    player.play(&rt);
    player.pause(&rt);
    let audio = AVAudioPlayer::new_with_contents_of_url(&mut rt, &url).ok().unwrap();
    assert!(audio.play(&rt));
    audio.pause(&rt);
    audio.stop(&rt);
}

#[test]
fn load_values_runs_the_handler() {
    let mut rt = Runtime::new();
    let asset = AVAsset::new(&mut rt);
    let keys: choco::base::Ptr<choco::nsarray::NSMutableArray<NSString>> =
        choco::nsarray::NSMutableArray::new(&mut rt);
    let mut ran = false;
    asset.load_values_async_for_keys(&rt, &keys, || {
        ran = true;
    });
    assert!(ran);
}
