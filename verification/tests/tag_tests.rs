use image::{DynamicImage, GenericImageView, ImageFormat, Rgb, RgbImage};
use lofty::picture::{MimeType, Picture, PictureType};
use lofty::tag::{Accessor, ItemKey, ItemValue, Tag, TagItem, TagType};
use std::io::Cursor;
use tracksync::error::{ErrorKind, SyncError};
use tracksync::model::{is_wanted, SoundCloudTrack, SoundCloudUser};
use tracksync::artwork::{cover_from_image, decode_artwork};
use tracksync::tag::{
    artwork_request, begin, build_tag, build_tag_with_image, embed_artwork, embed_cover,
    embed_image, prepare_tag, step, write_artist, write_details, write_with_artwork, TagAction,
    TagEvent, TagPlan, TagStage, COVER_QUALITY, COVER_SIZE,
};

fn label_key() -> ItemKey {
    ItemKey::Unknown("TPUB".to_string())
}

fn given(s: &str) -> Option<String> {
    Some(s.to_string())
}

fn plan(
    artist: Option<&str>,
    artwork_url: Option<&str>,
    comment: Option<&str>,
    label: Option<&str>,
    genre: Option<&str>,
) -> TagPlan {
    TagPlan {
        artist: artist.map(str::to_string),
        artwork_url: artwork_url.map(str::to_string),
        comment: comment.map(str::to_string),
        label: label.map(str::to_string),
        genre: genre.map(str::to_string),
    }
}

fn no_plan() -> TagPlan {
    plan(None, None, None, None, None)
}

fn full_plan() -> TagPlan {
    plan(Some("Artist"), None, Some("A comment"), Some("Label Inc"), Some("Techno"))
}

fn artwork_png() -> Vec<u8> {
    let img = DynamicImage::ImageRgb8(RgbImage::from_pixel(30, 20, Rgb([10, 200, 30])));
    let mut bytes = Vec::new();
    img.write_to(&mut Cursor::new(&mut bytes), ImageFormat::Png).unwrap();
    bytes
}

fn old_picture(kind: PictureType) -> Picture {
    Picture::new_unchecked(kind, Some(MimeType::Png), None, vec![1, 2, 3])
}

fn track() -> SoundCloudTrack {
    SoundCloudTrack {
        id: 42,
        title: given("My Track"),
        streamable: Some(true),
        downloadable: Some(false),
        stream_url: None,
        download_url: None,
        http_mp3_128_url: given("https://x/42.mp3"),
        artwork_url: given("https://i/a-large.jpg"),
        user: Some(SoundCloudUser { username: given("Someone") }),
        description: given("About"),
        label_name: given("Unused Label"),
        genre: given("House"),
        tag_list: given("tag1 tag2"),
    }
}

#[test]
fn cover_constants() {
    assert_eq!(COVER_SIZE, 500);
    assert_eq!(COVER_QUALITY, 90);
}

#[test]
fn wanted_values_are_not_blank() {
    assert!(is_wanted(&given("a")));
    assert!(is_wanted(&given("  a  ")));
    assert!(!is_wanted(&given("")));
    assert!(!is_wanted(&given("  \n\t")));
    assert!(!is_wanted(&given("\u{3000}")));
    assert!(!is_wanted(&None));
}

#[test]
fn plan_is_taken_from_the_descriptor() {
    let p = TagPlan::for_track(&track());
    assert_eq!(
        p,
        plan(
            Some("Someone"),
            Some("https://i/a-large.jpg"),
            Some("About"),
            Some("tag1 tag2"),
            Some("House")
        )
    );
}

#[test]
fn plan_of_a_bare_descriptor_is_empty() {
    let mut t = track();
    t.user = None;
    t.artwork_url = None;
    t.description = None;
    t.tag_list = None;
    t.genre = None;
    assert_eq!(TagPlan::for_track(&t), no_plan());
    t.user = Some(SoundCloudUser { username: None });
    assert_eq!(TagPlan::for_track(&t), no_plan());
}

#[test]
fn artwork_request_normalizes_the_address() {
    let p = plan(None, Some("https://i/a-large.jpg"), None, None, None);
    assert_eq!(artwork_request(&p), given("https://i/a-t500x500.jpg"));
    let p = plan(None, Some(" https://i/a.jpg "), None, None, None);
    assert_eq!(artwork_request(&p), given(" https://i/a.jpg "));
}

#[test]
fn artwork_request_of_a_blank_address_is_none() {
    assert_eq!(artwork_request(&no_plan()), None);
    assert_eq!(artwork_request(&plan(None, Some(""), None, None, None)), None);
    assert_eq!(artwork_request(&plan(None, Some("   "), None, None, None)), None);
}

#[test]
fn prepared_tag_is_an_empty_id3v2_block() {
    let tag = prepare_tag(None);
    assert_eq!(tag.tag_type(), TagType::Id3v2);
    assert_eq!(tag.item_count(), 0);
    assert_eq!(tag.picture_count(), 0);
}

#[test]
fn prepared_tag_keeps_what_id3v2_can_hold() {
    let mut existing = Tag::new(TagType::VorbisComments);
    existing.set_artist("Old Artist".to_string());
    existing.set_genre("Old Genre".to_string());
    existing.set_comment("Old Comment".to_string());
    existing.set_title("Old Title".to_string());
    existing.push_picture(old_picture(PictureType::CoverBack));
    let tag = prepare_tag(Some(existing));
    assert_eq!(tag.tag_type(), TagType::Id3v2);
    assert_eq!(tag.get_string(&ItemKey::TrackArtist), Some("Old Artist"));
    assert_eq!(tag.get_string(&ItemKey::Genre), Some("Old Genre"));
    assert_eq!(tag.get_string(&ItemKey::Comment), Some("Old Comment"));
    assert_eq!(tag.get_string(&ItemKey::TrackTitle), Some("Old Title"));
    assert_eq!(tag.picture_count(), 1);
    assert_eq!(tag.pictures()[0].pic_type(), PictureType::CoverBack);
}

#[test]
fn prepared_tag_drops_a_raw_label() {
    let mut existing = Tag::new(TagType::Id3v2);
    existing.insert_unchecked(TagItem::new(label_key(), ItemValue::Text("Old Label".to_string())));
    existing.set_artist("Old Artist".to_string());
    assert_eq!(existing.get_string(&label_key()), Some("Old Label"));
    let tag = prepare_tag(Some(existing));
    assert_eq!(tag.get_string(&label_key()), None);
    assert_eq!(tag.get_string(&ItemKey::TrackArtist), Some("Old Artist"));
}

#[test]
fn artist_is_written_when_offered() {
    let mut tag = prepare_tag(None);
    write_artist(&mut tag, &full_plan());
    assert_eq!(tag.get_string(&ItemKey::TrackArtist), Some("Artist"));
    assert_eq!(tag.item_count(), 1);
    let mut tag = prepare_tag(None);
    write_artist(&mut tag, &plan(Some("   "), None, None, None, None));
    assert_eq!(tag.item_count(), 0);
}

#[test]
fn details_are_written_when_offered() {
    let mut tag = prepare_tag(None);
    write_details(&mut tag, &full_plan());
    assert_eq!(tag.get_string(&ItemKey::TrackArtist), None);
    assert_eq!(tag.get_string(&ItemKey::Genre), Some("Techno"));
    assert_eq!(tag.get_string(&ItemKey::Comment), Some("A comment"));
    assert_eq!(tag.get_string(&label_key()), Some("Label Inc"));
    assert_eq!(tag.item_count(), 3);
}

#[test]
fn built_tag_holds_every_offered_text() {
    let tag = build_tag(None, &full_plan(), None).unwrap();
    assert_eq!(tag.tag_type(), TagType::Id3v2);
    assert_eq!(tag.get_string(&ItemKey::TrackArtist), Some("Artist"));
    assert_eq!(tag.get_string(&ItemKey::Genre), Some("Techno"));
    assert_eq!(tag.get_string(&ItemKey::Comment), Some("A comment"));
    assert_eq!(tag.get_string(&label_key()), Some("Label Inc"));
    assert_eq!(tag.item_count(), 4);
    assert_eq!(tag.picture_count(), 0);
}

#[test]
fn built_tag_stores_values_untrimmed() {
    let p = plan(Some("  Artist "), None, None, None, Some(" Techno\n"));
    let tag = build_tag(None, &p, None).unwrap();
    assert_eq!(tag.get_string(&ItemKey::TrackArtist), Some("  Artist "));
    assert_eq!(tag.get_string(&ItemKey::Genre), Some(" Techno\n"));
}

#[test]
fn blank_values_leave_existing_fields_untouched() {
    let mut existing = Tag::new(TagType::Id3v2);
    existing.set_artist("Old Artist".to_string());
    existing.set_genre("Old Genre".to_string());
    existing.set_comment("Old Comment".to_string());
    let p = plan(Some(""), Some("  "), Some(" \t"), None, Some("\n"));
    let tag = build_tag(Some(existing), &p, None).unwrap();
    assert_eq!(tag.get_string(&ItemKey::TrackArtist), Some("Old Artist"));
    assert_eq!(tag.get_string(&ItemKey::Genre), Some("Old Genre"));
    assert_eq!(tag.get_string(&ItemKey::Comment), Some("Old Comment"));
    assert_eq!(tag.get_string(&label_key()), None);
    assert_eq!(tag.item_count(), 3);
}

#[test]
fn offered_values_replace_existing_fields() {
    let mut existing = Tag::new(TagType::Id3v2);
    existing.set_artist("Old Artist".to_string());
    existing.set_genre("Old Genre".to_string());
    existing.set_comment("Old Comment".to_string());
    existing.set_title("Old Title".to_string());
    existing.insert_unchecked(TagItem::new(label_key(), ItemValue::Text("Old Label".to_string())));
    let tag = build_tag(Some(existing), &full_plan(), None).unwrap();
    assert_eq!(tag.get_string(&ItemKey::TrackArtist), Some("Artist"));
    assert_eq!(tag.get_string(&ItemKey::Genre), Some("Techno"));
    assert_eq!(tag.get_string(&ItemKey::Comment), Some("A comment"));
    assert_eq!(tag.get_string(&label_key()), Some("Label Inc"));
    assert_eq!(tag.get_string(&ItemKey::TrackTitle), Some("Old Title"));
    assert_eq!(tag.item_count(), 5);
}

#[test]
fn built_tag_is_id3v2_whatever_was_read() {
    let mut existing = Tag::new(TagType::Ape);
    existing.set_artist("Old Artist".to_string());
    let tag = build_tag(Some(existing), &no_plan(), None).unwrap();
    assert_eq!(tag.tag_type(), TagType::Id3v2);
    assert_eq!(tag.get_string(&ItemKey::TrackArtist), Some("Old Artist"));
}

#[test]
fn built_tag_without_artwork_keeps_the_pictures() {
    let mut existing = Tag::new(TagType::Id3v2);
    existing.push_picture(old_picture(PictureType::CoverFront));
    existing.push_picture(old_picture(PictureType::Artist));
    let tag = build_tag(Some(existing), &full_plan(), None).unwrap();
    assert_eq!(tag.picture_count(), 2);
    assert_eq!(tag.pictures()[0].data(), &[1, 2, 3]);
    assert_eq!(tag.pictures()[1].pic_type(), PictureType::Artist);
}

#[test]
fn built_tag_with_artwork_has_a_front_cover() {
    let bytes = artwork_png();
    let tag = build_tag(None, &full_plan(), Some(&bytes)).unwrap();
    assert_eq!(tag.picture_count(), 1);
    let cover = &tag.pictures()[0];
    assert_eq!(cover.pic_type(), PictureType::CoverFront);
    assert_eq!(cover.mime_type(), Some(&MimeType::Jpeg));
    let decoded = image::load_from_memory(cover.data()).unwrap();
    assert_eq!(decoded.dimensions(), (500, 500));
    let p = decoded.get_pixel(250, 250);
    assert!(p[0] < 40 && p[1] > 170 && p[2] < 60);
    assert_eq!(tag.get_string(&ItemKey::TrackArtist), Some("Artist"));
    assert_eq!(tag.get_string(&label_key()), Some("Label Inc"));
}

#[test]
fn new_cover_replaces_the_first_picture_only() {
    let mut existing = Tag::new(TagType::Id3v2);
    existing.push_picture(old_picture(PictureType::CoverBack));
    existing.push_picture(old_picture(PictureType::Artist));
    let bytes = artwork_png();
    let tag = build_tag(Some(existing), &no_plan(), Some(&bytes)).unwrap();
    assert_eq!(tag.picture_count(), 2);
    assert_eq!(tag.pictures()[0].pic_type(), PictureType::CoverFront);
    assert_eq!(tag.pictures()[0].mime_type(), Some(&MimeType::Jpeg));
    assert_eq!(tag.pictures()[1].pic_type(), PictureType::Artist);
    assert_eq!(tag.pictures()[1].data(), &[1, 2, 3]);
}

#[test]
fn artwork_that_is_no_image_fails_the_build() {
    let e = match build_tag(None, &full_plan(), Some(b"not an image")) {
        Ok(_) => panic!("built"),
        Err(e) => e,
    };
    assert_eq!(e.kind, ErrorKind::Parse);
}

#[test]
fn embed_cover_takes_an_image_file_as_it_is() {
    let mut tag = Tag::new(TagType::Id3v2);
    tag.set_artist("A".to_string());
    let jpeg = vec![0xFF, 0xD8, 0xFF, 0xE0, 0, 16, b'J', b'F', b'I', b'F'];
    assert!(embed_cover(&mut tag, jpeg.clone()).is_ok());
    assert_eq!(tag.picture_count(), 1);
    assert_eq!(tag.pictures()[0].pic_type(), PictureType::CoverFront);
    assert_eq!(tag.pictures()[0].data(), &jpeg[..]);
    assert_eq!(tag.get_string(&ItemKey::TrackArtist), Some("A"));
}

#[test]
fn embed_cover_accepts_each_supported_signature() {
    let heads: Vec<Vec<u8>> = vec![
        vec![0x89, b'P', b'N', b'G', 0x0D, 0x0A, 0x1A, 0x0A],
        vec![0xFF, 0xD8, 0, 0, 0, 0, 0, 0],
        vec![b'G', b'I', b'F', b'8', b'7', b'a', 0, 0],
        vec![b'G', b'I', b'F', b'8', b'9', b'a', 0, 0],
        vec![b'B', b'M', 0, 0, 0, 0, 0, 0],
        vec![b'I', b'I', b'*', 0, 0, 0, 0, 0],
        vec![b'M', b'M', 0, b'*', 0, 0, 0, 0],
    ];
    for head in heads {
        let mut tag = Tag::new(TagType::Id3v2);
        assert!(embed_cover(&mut tag, head.clone()).is_ok());
        assert_eq!(tag.pictures()[0].data(), &head[..]);
    }
}

#[test]
fn embed_cover_refuses_what_is_no_image_file() {
    let refused: Vec<Vec<u8>> = vec![
        vec![],
        vec![0xFF, 0xD8, 0xFF],
        vec![0xFF, 0xD8, 0, 0, 0, 0, 0],
        vec![0x89, b'P', b'N', b'G', 0x0D, 0x0A, 0x1A, 0x0B],
        vec![b'G', b'I', b'F', b'8', b'8', b'a', 0, 0],
        vec![b'I', b'I', 0, b'*', 0, 0, 0, 0],
        vec![b'M', b'M', b'*', 0, 0, 0, 0, 0],
        b"plain text, long enough".to_vec(),
    ];
    for bytes in refused {
        let mut tag = Tag::new(TagType::Id3v2);
        tag.push_picture(old_picture(PictureType::CoverBack));
        tag.set_genre("G".to_string());
        let e = embed_cover(&mut tag, bytes).unwrap_err();
        assert_eq!(e.kind, ErrorKind::Parse);
        assert_eq!(tag.picture_count(), 1);
        assert_eq!(tag.pictures()[0].pic_type(), PictureType::CoverBack);
        assert_eq!(tag.get_string(&ItemKey::Genre), Some("G"));
    }
}

#[test]
fn embed_artwork_processes_before_it_embeds() {
    let mut tag = Tag::new(TagType::Id3v2);
    let bytes = artwork_png();
    assert!(embed_artwork(&mut tag, &bytes).is_ok());
    assert_eq!(tag.picture_count(), 1);
    assert_ne!(tag.pictures()[0].data(), &bytes[..]);
    assert_eq!(tag.pictures()[0].mime_type(), Some(&MimeType::Jpeg));
    let mut tag = Tag::new(TagType::Id3v2);
    let e = embed_artwork(&mut tag, b"garbage").unwrap_err();
    assert_eq!(e.kind, ErrorKind::Parse);
    assert_eq!(tag.picture_count(), 0);
}

#[test]
fn tagging_begins_with_reading() {
    let (state, action) = begin("/music/a.mp3", full_plan());
    assert_eq!(state.stage, TagStage::Reading);
    assert_eq!(state.path, "/music/a.mp3");
    assert_eq!(state.plan, full_plan());
    assert!(state.existing.is_none());
    match action {
        TagAction::ReadTag { path } => assert_eq!(path, "/music/a.mp3"),
        _ => panic!("not a read"),
    }
}

#[test]
fn tagging_without_artwork_writes_at_once() {
    let (state, _) = begin("/music/a.mp3", full_plan());
    let (state, action) = step(state, TagEvent::Existing(None));
    assert_eq!(state.stage, TagStage::Writing);
    match action {
        TagAction::WriteTag { path, tag } => {
            assert_eq!(path, "/music/a.mp3");
            assert_eq!(tag.tag_type(), TagType::Id3v2);
            assert_eq!(tag.get_string(&ItemKey::TrackArtist), Some("Artist"));
            assert_eq!(tag.get_string(&ItemKey::Genre), Some("Techno"));
            assert_eq!(tag.get_string(&ItemKey::Comment), Some("A comment"));
            assert_eq!(tag.get_string(&label_key()), Some("Label Inc"));
            assert_eq!(tag.picture_count(), 0);
        },
        _ => panic!("not a write"),
    }
    let (state, action) = step(state, TagEvent::Completed);
    assert_eq!(state.stage, TagStage::Done);
    assert!(matches!(action, TagAction::Succeed));
}

#[test]
fn tagging_with_artwork_downloads_it_first() {
    let p = plan(Some("Artist"), Some("https://i/a-large.jpg"), None, None, None);
    let (state, _) = begin("/music/a.mp3", p);
    let mut existing = Tag::new(TagType::Id3v2);
    existing.set_genre("Old Genre".to_string());
    let (state, action) = step(state, TagEvent::Existing(Some(existing)));
    assert_eq!(state.stage, TagStage::Downloading);
    match action {
        TagAction::DownloadArtwork { url } => assert_eq!(url, "https://i/a-t500x500.jpg"),
        _ => panic!("not a download"),
    }
    let (state, action) = step(state, TagEvent::Artwork(artwork_png()));
    assert_eq!(state.stage, TagStage::Writing);
    match action {
        TagAction::WriteTag { path, tag } => {
            assert_eq!(path, "/music/a.mp3");
            assert_eq!(tag.get_string(&ItemKey::TrackArtist), Some("Artist"));
            assert_eq!(tag.get_string(&ItemKey::Genre), Some("Old Genre"));
            assert_eq!(tag.picture_count(), 1);
            assert_eq!(tag.pictures()[0].pic_type(), PictureType::CoverFront);
        },
        _ => panic!("not a write"),
    }
}

#[test]
fn failed_download_fails_the_tagging() {
    let p = plan(None, Some("https://i/a.jpg"), None, None, None);
    let (state, _) = begin("/music/a.mp3", p);
    let (state, _) = step(state, TagEvent::Existing(None));
    let (state, action) = step(state, TagEvent::Failed("timed out".to_string()));
    assert_eq!(state.stage, TagStage::Done);
    match action {
        TagAction::Fail(e) => {
            assert_eq!(e, SyncError { kind: ErrorKind::Transport, message: "timed out".to_string() })
        },
        _ => panic!("not a failure"),
    }
}

#[test]
fn unusable_artwork_fails_the_tagging() {
    let p = plan(Some("Artist"), Some("https://i/a.jpg"), None, None, None);
    let (state, _) = begin("/music/a.mp3", p);
    let (state, _) = step(state, TagEvent::Existing(None));
    let (state, action) = step(state, TagEvent::Artwork(b"<html>not found</html>".to_vec()));
    assert_eq!(state.stage, TagStage::Done);
    match action {
        TagAction::Fail(e) => assert_eq!(e.kind, ErrorKind::Parse),
        _ => panic!("not a failure"),
    }
}

#[test]
fn failed_write_fails_the_tagging() {
    let (state, _) = begin("/music/a.mp3", no_plan());
    let (state, _) = step(state, TagEvent::Existing(None));
    let (state, action) = step(state, TagEvent::Failed("read-only file".to_string()));
    assert_eq!(state.stage, TagStage::Done);
    match action {
        TagAction::Fail(e) => assert_eq!(
            e,
            SyncError { kind: ErrorKind::Filesystem, message: "read-only file".to_string() }
        ),
        _ => panic!("not a failure"),
    }
}

#[test]
fn report_that_does_not_fit_ends_the_tagging() {
    let (state, _) = begin("/music/a.mp3", no_plan());
    let (state, action) = step(state, TagEvent::Completed);
    assert_eq!(state.stage, TagStage::Done);
    match action {
        TagAction::Fail(e) => assert_eq!(
            e,
            SyncError { kind: ErrorKind::Filesystem, message: "unexpected event".to_string() }
        ),
        _ => panic!("not a failure"),
    }
    let (state, action) = step(state, TagEvent::Existing(None));
    assert_eq!(state.stage, TagStage::Done);
    assert!(matches!(action, TagAction::Fail(_)));
    assert_eq!(state.path, "/music/a.mp3");
}

/// An image whose largest centered square has the size of a cover already.
fn artwork_image() -> DynamicImage {
    DynamicImage::ImageRgb8(RgbImage::from_fn(520, 500, |x, y| {
        Rgb([(x % 251) as u8, (y % 241) as u8, 30])
    }))
}

fn png_of(img: &DynamicImage) -> Vec<u8> {
    let mut bytes = Vec::new();
    img.write_to(&mut Cursor::new(&mut bytes), ImageFormat::Png).unwrap();
    bytes
}

fn item_texts(tag: &Tag) -> Vec<String> {
    tag.items().map(|i| format!("{:?}", i)).collect()
}

/// A block as a file may hold it: a title, a label and a publisher under
/// their named keys, and an album.
fn block_with_label() -> Tag {
    let mut tag = Tag::new(TagType::Id3v2);
    tag.insert_text(ItemKey::TrackTitle, "Old Title".to_string());
    tag.insert_text(ItemKey::Label, "Old Label".to_string());
    tag.insert_text(ItemKey::Publisher, "Old Publisher".to_string());
    tag.insert_text(ItemKey::AlbumTitle, "Old Album".to_string());
    tag
}

#[test]
fn embedded_image_is_its_cover() {
    let img = artwork_image();
    let mut tag = Tag::new(TagType::Id3v2);
    tag.set_artist("A".to_string());
    tag.push_picture(old_picture(PictureType::CoverBack));
    tag.push_picture(old_picture(PictureType::Artist));
    assert!(embed_image(&mut tag, &img).is_ok());
    assert_eq!(tag.picture_count(), 2);
    assert_eq!(tag.pictures()[0].pic_type(), PictureType::CoverFront);
    assert_eq!(
        tag.pictures()[0].data(),
        &cover_from_image(&img, COVER_SIZE, COVER_QUALITY).unwrap()[..]
    );
    assert_eq!(tag.pictures()[1].pic_type(), PictureType::Artist);
    assert_eq!(tag.get_string(&ItemKey::TrackArtist), Some("A"));
}

#[test]
fn embedded_artwork_is_the_cover_of_what_it_decodes_to() {
    let bytes = png_of(&artwork_image());
    let decoded = decode_artwork(&bytes).unwrap();
    let mut tag = Tag::new(TagType::Id3v2);
    embed_artwork(&mut tag, &bytes).unwrap();
    assert_eq!(
        tag.pictures()[0].data(),
        &cover_from_image(&decoded, 500, 90).unwrap()[..]
    );
}

#[test]
fn tag_built_with_an_image_holds_texts_and_cover() {
    let img = artwork_image();
    let tag = build_tag_with_image(Some(block_with_label()), &full_plan(), Some(&img)).unwrap();
    assert_eq!(tag.tag_type(), TagType::Id3v2);
    assert_eq!(tag.get_string(&ItemKey::TrackArtist), Some("Artist"));
    assert_eq!(tag.get_string(&ItemKey::Genre), Some("Techno"));
    assert_eq!(tag.get_string(&ItemKey::Comment), Some("A comment"));
    assert_eq!(tag.get_string(&label_key()), Some("Label Inc"));
    assert_eq!(tag.picture_count(), 1);
    assert_eq!(tag.pictures()[0].pic_type(), PictureType::CoverFront);
    assert_eq!(tag.pictures()[0].data(), &cover_from_image(&img, 500, 90).unwrap()[..]);
}

#[test]
fn tag_built_without_an_image_is_always_built() {
    let tag = build_tag_with_image(None, &no_plan(), None).unwrap();
    assert_eq!(tag.item_count(), 0);
    assert_eq!(tag.picture_count(), 0);
}

#[test]
fn blank_label_leaves_the_label_of_the_file_untouched() {
    let before = item_texts(&block_with_label());
    let p = plan(Some("Artist"), None, None, Some("  "), None);
    let tag = build_tag(Some(block_with_label()), &p, None).unwrap();
    assert_eq!(tag.get_string(&ItemKey::Label), Some("Old Label"));
    assert_eq!(tag.get_string(&ItemKey::Publisher), Some("Old Publisher"));
    assert_eq!(tag.get_string(&label_key()), None);
    let after = item_texts(&tag);
    assert_eq!(&after[..4], &before[..]);
    assert_eq!(after.len(), 5);
}

#[test]
fn other_items_stay_in_their_order() {
    let before = item_texts(&block_with_label());
    let tag = build_tag(Some(block_with_label()), &full_plan(), Some(&artwork_png())).unwrap();
    let after = item_texts(&tag);
    assert_eq!(&after[..4], &before[..]);
    assert_eq!(tag.get_string(&ItemKey::TrackTitle), Some("Old Title"));
    assert_eq!(tag.get_string(&ItemKey::AlbumTitle), Some("Old Album"));
    assert_eq!(tag.get_string(&ItemKey::Label), Some("Old Label"));
    assert_eq!(tag.get_string(&label_key()), Some("Label Inc"));
    assert_eq!(tag.item_count(), 8);
}

#[test]
fn other_items_of_another_block_type_stay_where_id3v2_can_hold_them() {
    let mut existing = Tag::new(TagType::VorbisComments);
    existing.insert_text(ItemKey::TrackTitle, "Old Title".to_string());
    existing.insert_text(ItemKey::Label, "Old Label".to_string());
    existing.set_artist("Old Artist".to_string());
    let before = item_texts(&existing);
    let tag = build_tag(Some(existing), &no_plan(), None).unwrap();
    assert_eq!(item_texts(&tag), before);
}

#[test]
fn decoded_artwork_is_written_with_its_cover() {
    let img = artwork_image();
    let p = plan(Some("Artist"), Some("https://i/a.jpg"), None, None, None);
    let (state, _) = begin("/music/a.mp3", p);
    let (state, _) = step(state, TagEvent::Existing(None));
    let (state, action) = write_with_artwork(state, Ok(img.clone()));
    assert_eq!(state.stage, TagStage::Writing);
    match action {
        TagAction::WriteTag { path, tag } => {
            assert_eq!(path, "/music/a.mp3");
            assert_eq!(tag.get_string(&ItemKey::TrackArtist), Some("Artist"));
            assert_eq!(tag.pictures()[0].data(), &cover_from_image(&img, 500, 90).unwrap()[..]);
        },
        _ => panic!("not a write"),
    }
}

#[test]
fn undecoded_artwork_ends_the_tagging_with_the_decoder_failure() {
    let (state, _) = begin("/music/a.mp3", no_plan());
    let failure = SyncError { kind: ErrorKind::Parse, message: "bad magic".to_string() };
    let (state, action) = write_with_artwork(state, Err(failure.clone()));
    assert_eq!(state.stage, TagStage::Done);
    match action {
        TagAction::Fail(e) => assert_eq!(e, failure),
        _ => panic!("not a failure"),
    }
}
