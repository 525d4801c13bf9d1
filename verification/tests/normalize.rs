use media_session::linux::{join_list, RawMetadata};
use media_session::win::RawMediaBag;
use media_session::MediaProps;

fn full_bag() -> RawMediaBag {
    RawMediaBag {
        artist: Some(String::from("Artist A")),
        title: Some(String::from("Title T")),
        album_artist: Some(String::from("Album Artist")),
        album_title: Some(String::from("Album")),
        subtitle: Some(String::from("Sub")),
        album_track_count: Some(12),
        track_number: Some(3),
    }
}

fn full_metadata() -> RawMetadata {
    RawMetadata {
        artists: Some(vec![String::from("Artist A"), String::from("Artist B")]),
        album_artists: Some(vec![String::from("Album Artist")]),
        title: Some(String::from("Title T")),
        album_name: Some(String::from("Album")),
        url: Some(String::from("file:///music/track.flac")),
        track_number: Some(3),
    }
}

#[test]
fn bag_all_fields_present() {
    let props = MediaProps::from_raw(&full_bag());
    assert_eq!(props.artist, "Artist A");
    assert_eq!(props.title, "Title T");
    assert_eq!(props.album_artist, "Album Artist");
    assert_eq!(props.album_title, "Album");
    assert_eq!(props.subtitle, "Sub");
    assert_eq!(props.album_track_count, 12);
    assert_eq!(props.track_number, 3);
}

#[test]
fn bag_missing_fields_get_defaults_in_exactly_those_slots() {
    let mut bag = full_bag();
    bag.artist = None;
    bag.album_track_count = None;
    let props = MediaProps::from_raw(&bag);
    assert_eq!(props.artist, "");
    assert_eq!(props.album_track_count, -1);
    // the present fields are untouched
    assert_eq!(props.title, "Title T");
    assert_eq!(props.album_artist, "Album Artist");
    assert_eq!(props.album_title, "Album");
    assert_eq!(props.subtitle, "Sub");
    assert_eq!(props.track_number, 3);
}

#[test]
fn bag_all_fields_missing_is_the_all_absent_record() {
    let bag = RawMediaBag {
        artist: None,
        title: None,
        album_artist: None,
        album_title: None,
        subtitle: None,
        album_track_count: None,
        track_number: None,
    };
    let props = MediaProps::from_raw(&bag);
    assert_eq!(props, MediaProps::new());
}

#[test]
fn metadata_all_fields_present() {
    let props = MediaProps::from_metadata(&full_metadata());
    assert_eq!(props.artist, "Artist A, Artist B");
    assert_eq!(props.album_artist, "Album Artist");
    assert_eq!(props.title, "Title T");
    assert_eq!(props.album_title, "Album");
    assert_eq!(props.subtitle, "file:///music/track.flac");
    // this backend reports no album track count
    assert_eq!(props.album_track_count, -1);
    assert_eq!(props.track_number, 3);
}

#[test]
fn metadata_missing_fields_get_defaults_in_exactly_those_slots() {
    let mut metadata = full_metadata();
    metadata.artists = None;
    metadata.url = None;
    metadata.track_number = None;
    let props = MediaProps::from_metadata(&metadata);
    assert_eq!(props.artist, "");
    assert_eq!(props.subtitle, "");
    assert_eq!(props.track_number, -1);
    assert_eq!(props.title, "Title T");
    assert_eq!(props.album_artist, "Album Artist");
    assert_eq!(props.album_title, "Album");
}

#[test]
fn metadata_all_fields_missing_is_the_all_absent_record() {
    let metadata = RawMetadata {
        artists: None,
        album_artists: None,
        title: None,
        album_name: None,
        url: None,
        track_number: None,
    };
    let props = MediaProps::from_metadata(&metadata);
    assert_eq!(props, MediaProps::new());
}

#[test]
fn join_uses_comma_and_space() {
    assert_eq!(join_list(&Vec::new()), "");
    assert_eq!(join_list(&vec![String::from("solo")]), "solo");
    assert_eq!(
        join_list(&vec![
            String::from("a"),
            String::from("b"),
            String::from("c")
        ]),
        "a, b, c"
    );
}

#[test]
fn props_equality_is_structural() {
    let a = MediaProps::from_raw(&full_bag());
    let mut b = MediaProps::from_raw(&full_bag());
    assert_eq!(a, b);
    b.track_number = 4;
    assert_ne!(a, b);
    let c = a.clone();
    assert_eq!(a, c);
}
