//! The tag writer: after a track has reached its destination, its tag block
//! is completed with what the descriptor knows (artist, genre, comment,
//! label) and with a square cover.
//!
//! The tag block is a `lofty` [`Tag`]. Proofs see of it what [`tag_texts`],
//! [`tag_other_items`], [`tag_pictures`] and [`tag_is_id3v2`] name; every `lofty` call is made
//! through one of the wrappers of this module. Reading the block from a file
//! and writing it back are left to the caller, as is the download of the
//! artwork: the writer is a state machine that asks for them.

use crate::artwork::{
    can_make_cover, cover_from_image, decode_artwork, is_cover_of,
    normalize_soundcloud_artwork_url, spec_cover_refusal, spec_normalize_artwork_url,
};
use crate::error::{ErrorKind, SyncError};
use crate::model::{is_wanted, text_of, wanted, SoundCloudTrack, TrackView};
use lofty::error::LoftyError;
use lofty::picture::{Picture, PictureType};
use image::DynamicImage;
use lofty::tag::{Accessor, ItemKey, ItemValue, Tag, TagItem, TagType};
use std::io::Cursor;
use vstd::prelude::*;

verus! {

/// The side of an embedded cover, in pixels.
pub const COVER_SIZE: u32 = 500;

/// The JPEG quality of an embedded cover.
pub const COVER_QUALITY: u8 = 90;

/// The text fields that the tag writer manages, each standing for one key of
/// a `lofty` tag: `Artist` for `ItemKey::TrackArtist`, `Genre` for
/// `ItemKey::Genre`, `Comment` for `ItemKey::Comment`, and `Label` for the
/// raw frame `ItemKey::Unknown("TPUB")`, the publisher frame of ID3v2: the
/// label has no key of its own that every tag type knows.
#[derive(Debug, Clone, Copy, PartialEq, Eq, Structural)]
pub enum TagField {
    Artist,
    Genre,
    Comment,
    Label,
}

/// What proofs see of a picture: whether it is marked as the front cover, and
/// its bytes.
pub struct PictureView {
    pub front_cover: bool,
    pub data: Seq<u8>,
}

/// A tag block of the `lofty` crate.
#[verifier::external_type_specification]
#[verifier::external_body]
pub struct ExTag(Tag);

/// A picture of the `lofty` crate.
#[verifier::external_type_specification]
#[verifier::external_body]
pub struct ExPicture(Picture);

/// A failure of the `lofty` crate.
#[verifier::external_type_specification]
#[verifier::external_body]
pub struct ExLoftyError(LoftyError);

/// The text that a tag holds for each managed field: what `Tag::get_string`
/// finds under the field's key. A field without text is not in the map.
pub uninterp spec fn tag_texts(tag: Tag) -> Map<TagField, Seq<char>>;

/// The other items of a tag that an ID3v2 block can hold: the items whose
/// key has an ID3v2 frame and is not the artist, genre or comment key, in
/// order, each as the text that its `Debug` implementation gives. The
/// publisher or label that a block read from a file holds under its named
/// key is among them.
pub uninterp spec fn tag_other_items(tag: Tag) -> Seq<Seq<char>>;

/// The pictures of a tag, in order.
pub uninterp spec fn tag_pictures(tag: Tag) -> Seq<PictureView>;

/// Whether the tag's type is ID3v2.
pub uninterp spec fn tag_is_id3v2(tag: Tag) -> bool;

/// The type and the bytes of a picture.
pub uninterp spec fn picture_view(picture: Picture) -> PictureView;

/// Whether `bytes` start like a PNG, JPEG, GIF, BMP or TIFF file: the
/// formats that `lofty` accepts as pictures.
pub open spec fn has_picture_signature(bytes: Seq<u8>) -> bool {
    &&& bytes.len() >= 8
    &&& {
        ||| (bytes[0] == 0x89 && bytes[1] == 0x50 && bytes[2] == 0x4E && bytes[3] == 0x47
            && bytes[4] == 0x0D && bytes[5] == 0x0A && bytes[6] == 0x1A && bytes[7] == 0x0A)
        ||| (bytes[0] == 0xFF && bytes[1] == 0xD8)
        ||| (bytes[0] == 0x47 && bytes[1] == 0x49 && bytes[2] == 0x46 && bytes[3] == 0x38 && (
        bytes[4] == 0x37 || bytes[4] == 0x39) && bytes[5] == 0x61)
        ||| (bytes[0] == 0x42 && bytes[1] == 0x4D)
        ||| (bytes[0] == 0x49 && bytes[1] == 0x49 && bytes[2] == 0x2A && bytes[3] == 0x00)
        ||| (bytes[0] == 0x4D && bytes[1] == 0x4D && bytes[2] == 0x00 && bytes[3] == 0x2A)
    }
}

/// The pictures of a tag after the picture at `index` was set: replaced where
/// there is one, appended where there is none.
pub open spec fn spec_set_picture(pictures: Seq<PictureView>, index: int, picture: PictureView) -> Seq<
    PictureView,
> {
    if index >= pictures.len() {
        pictures.push(picture)
    } else {
        pictures.update(index, picture)
    }
}

/// Makes an empty ID3v2 tag.
///
/// Trusted: this is `Tag::new(TagType::Id3v2)`, a tag of that type without
/// items and without pictures.
#[verifier::external_body]
fn tag_new_id3v2() -> (tag: Tag)
    ensures
        tag_is_id3v2(tag),
        tag_texts(tag) == (Map::<TagField, Seq<char>>::empty()),
        tag_other_items(tag) == (Seq::<Seq<char>>::empty()),
        tag_pictures(tag) == (Seq::<PictureView>::empty()),
{
    Tag::new(TagType::Id3v2)
}

/// Turns a tag of any type into an ID3v2 tag.
///
/// Trusted: this is `Tag::re_map(TagType::Id3v2)`. It keeps, in order, the
/// items whose key has an ID3v2 frame, which the artist, genre and comment
/// keys have, as the publisher and label keys do, and drops the others,
/// among them every `ItemKey::Unknown`. It does not touch the pictures.
#[verifier::external_body]
fn tag_re_map_id3v2(tag: &mut Tag)
    ensures
        tag_is_id3v2(*final(tag)),
        tag_texts(*final(tag)) == tag_texts(*old(tag)).remove(TagField::Label),
        tag_other_items(*final(tag)) == tag_other_items(*old(tag)),
        tag_pictures(*final(tag)) == tag_pictures(*old(tag)),
{
    tag.re_map(TagType::Id3v2)
}

/// Sets the artist of an ID3v2 tag.
///
/// Trusted: this is `Accessor::set_artist` of `Tag`. In a tag whose type has
/// a frame for the artist it replaces the items under `ItemKey::TrackArtist`
/// by one text item, and leaves the other items and the pictures as they are.
#[verifier::external_body]
fn tag_set_artist(tag: &mut Tag, value: String)
    requires
        tag_is_id3v2(*old(tag)),
    ensures
        tag_is_id3v2(*final(tag)),
        tag_texts(*final(tag)) == tag_texts(*old(tag)).insert(TagField::Artist, value@),
        tag_other_items(*final(tag)) == tag_other_items(*old(tag)),
        tag_pictures(*final(tag)) == tag_pictures(*old(tag)),
{
    tag.set_artist(value)
}

/// Sets the genre of an ID3v2 tag.
///
/// Trusted: this is `Accessor::set_genre` of `Tag`. In a tag whose type has a
/// frame for the genre it replaces the items under `ItemKey::Genre` by one
/// text item, and leaves the other items and the pictures as they are.
#[verifier::external_body]
fn tag_set_genre(tag: &mut Tag, value: String)
    requires
        tag_is_id3v2(*old(tag)),
    ensures
        tag_is_id3v2(*final(tag)),
        tag_texts(*final(tag)) == tag_texts(*old(tag)).insert(TagField::Genre, value@),
        tag_other_items(*final(tag)) == tag_other_items(*old(tag)),
        tag_pictures(*final(tag)) == tag_pictures(*old(tag)),
{
    tag.set_genre(value)
}

/// Sets the comment of an ID3v2 tag.
///
/// Trusted: this is `Tag::insert_text` with `ItemKey::Comment`. In a tag
/// whose type has a frame for comments it replaces the items under that key
/// by one text item, and leaves the other items and the pictures as they are.
#[verifier::external_body]
fn tag_insert_comment(tag: &mut Tag, value: String)
    requires
        tag_is_id3v2(*old(tag)),
    ensures
        tag_is_id3v2(*final(tag)),
        tag_texts(*final(tag)) == tag_texts(*old(tag)).insert(TagField::Comment, value@),
        tag_other_items(*final(tag)) == tag_other_items(*old(tag)),
        tag_pictures(*final(tag)) == tag_pictures(*old(tag)),
{
    tag.insert_text(ItemKey::Comment, value);
}

/// The raw frame under which the label is stored: the publisher frame of
/// ID3v2.
pub open spec fn label_frame() -> Seq<char> {
    "TPUB"@
}

/// Sets the text of a raw frame of a tag.
///
/// Trusted: this is `Tag::insert_unchecked` with a text item made by
/// `TagItem::new` under `ItemKey::Unknown(frame)`. Whatever the tag's type,
/// it replaces the items under that key by the new one, and leaves the other
/// items and the pictures as they are. Of the managed fields only the label
/// lives under such a key, the one of [`label_frame`].
#[verifier::external_body]
fn tag_insert_raw_text(tag: &mut Tag, frame: &str, value: String)
    ensures
        tag_is_id3v2(*final(tag)) == tag_is_id3v2(*old(tag)),
        frame@ == label_frame() ==> tag_texts(*final(tag)) == tag_texts(*old(tag)).insert(
            TagField::Label,
            value@,
        ),
        frame@ != label_frame() ==> tag_texts(*final(tag)) == tag_texts(*old(tag)),
        tag_other_items(*final(tag)) == tag_other_items(*old(tag)),
        tag_pictures(*final(tag)) == tag_pictures(*old(tag)),
{
    tag.insert_unchecked(TagItem::new(ItemKey::Unknown(frame.to_string()), ItemValue::Text(value)))
}

/// Makes a picture from the bytes of an image file.
///
/// Trusted: this is `Picture::from_reader` on a cursor over `bytes`. It
/// fails unless there are eight bytes or more that start with the signature
/// of a supported format; the picture it makes holds the bytes unchanged and
/// has the type `PictureType::Other`.
#[verifier::external_body]
fn picture_from_bytes(bytes: Vec<u8>) -> (r: Result<Picture, LoftyError>)
    ensures
        r is Ok <==> has_picture_signature(bytes@),
        r matches Ok(p) ==> picture_view(p) == (PictureView { front_cover: false, data: bytes@ }),
{
    Picture::from_reader(&mut Cursor::new(bytes))
}

/// Marks a picture as the front cover.
///
/// Trusted: this is `Picture::set_pic_type` with `PictureType::CoverFront`,
/// which changes the type and nothing else.
#[verifier::external_body]
fn picture_set_front_cover(picture: &mut Picture)
    ensures
        picture_view(*final(picture)) == (PictureView {
            front_cover: true,
            data: picture_view(*old(picture)).data,
        }),
{
    picture.set_pic_type(PictureType::CoverFront)
}

/// Puts a picture at `index` of a tag's pictures.
///
/// Trusted: this is `Tag::set_picture`, which replaces the picture at
/// `index` or, where `index` is past the end, appends the new one. It leaves
/// the items as they are.
#[verifier::external_body]
fn tag_set_picture(tag: &mut Tag, index: usize, picture: Picture)
    ensures
        tag_is_id3v2(*final(tag)) == tag_is_id3v2(*old(tag)),
        tag_texts(*final(tag)) == tag_texts(*old(tag)),
        tag_other_items(*final(tag)) == tag_other_items(*old(tag)),
        tag_pictures(*final(tag)) == spec_set_picture(
            tag_pictures(*old(tag)),
            index as int,
            picture_view(picture),
        ),
{
    tag.set_picture(index, picture)
}

/// Renders a failure of the `lofty` crate as text.
///
/// Trusted: this is `ToString::to_string` of `LoftyError`. Nothing is claimed
/// of its result.
#[verifier::external_body]
fn lofty_error_text(e: &LoftyError) -> String {
    e.to_string()
}

/// What the descriptor offers for the tag block. A value that is absent, or
/// blank once trimmed, offers nothing.
#[derive(Debug, Clone, PartialEq, Eq)]
pub struct TagPlan {
    pub artist: Option<String>,
    pub artwork_url: Option<String>,
    pub comment: Option<String>,
    pub label: Option<String>,
    pub genre: Option<String>,
}

/// Mathematical view of a [`TagPlan`].
pub struct TagPlanView {
    pub artist: Option<Seq<char>>,
    pub artwork_url: Option<Seq<char>>,
    pub comment: Option<Seq<char>>,
    pub label: Option<Seq<char>>,
    pub genre: Option<Seq<char>>,
}

impl View for TagPlan {
    type V = TagPlanView;

    open spec fn view(&self) -> TagPlanView {
        TagPlanView {
            artist: text_of(self.artist),
            artwork_url: text_of(self.artwork_url),
            comment: text_of(self.comment),
            label: text_of(self.label),
            genre: text_of(self.genre),
        }
    }
}

/// The plan that a descriptor gives: the author's name as artist, the
/// description as comment, the tag list as label, the genre, and the artwork
/// address.
pub open spec fn spec_plan(track: TrackView) -> TagPlanView {
    TagPlanView {
        artist: track.artist(),
        artwork_url: track.artwork_url,
        comment: track.description,
        label: track.tag_list,
        genre: track.genre,
    }
}

/// The texts of a tag after `value` was offered for `field`: set where the
/// value is wanted, untouched where it is not.
pub open spec fn spec_offer(
    texts: Map<TagField, Seq<char>>,
    field: TagField,
    value: Option<Seq<char>>,
) -> Map<TagField, Seq<char>> {
    if wanted(value) {
        texts.insert(field, value->0)
    } else {
        texts
    }
}

/// The texts of a tag after the whole plan was applied to it.
pub open spec fn spec_texts_after(texts: Map<TagField, Seq<char>>, plan: TagPlanView) -> Map<
    TagField,
    Seq<char>,
> {
    spec_offer(
        spec_offer(
            spec_offer(spec_offer(texts, TagField::Artist, plan.artist), TagField::Genre, plan.genre),
            TagField::Comment,
            plan.comment,
        ),
        TagField::Label,
        plan.label,
    )
}

/// The texts that the writer starts from: those of the block that was read,
/// as an ID3v2 block keeps them, or none.
pub open spec fn spec_base_texts(existing: Option<Tag>) -> Map<TagField, Seq<char>> {
    match existing {
        Some(t) => tag_texts(t).remove(TagField::Label),
        None => Map::empty(),
    }
}

/// The other items that the writer starts from: those of the block that was
/// read, or none.
pub open spec fn spec_base_other(existing: Option<Tag>) -> Seq<Seq<char>> {
    match existing {
        Some(t) => tag_other_items(t),
        None => Seq::empty(),
    }
}

/// The pictures that the writer starts from: those of the block that was
/// read, or none.
pub open spec fn spec_base_pictures(existing: Option<Tag>) -> Seq<PictureView> {
    match existing {
        Some(t) => tag_pictures(t),
        None => Seq::empty(),
    }
}

impl TagPlan {
    /// Collects from a descriptor what it offers for the tag block.
    pub fn for_track(track: &SoundCloudTrack) -> (plan: TagPlan)
        ensures
            plan@ == spec_plan(track@),
    {
        let artist = match &track.user {
            Some(u) => u.username.clone(),
            None => None,
        };
        TagPlan {
            artist,
            artwork_url: track.artwork_url.clone(),
            comment: track.description.clone(),
            label: track.tag_list.clone(),
            genre: track.genre.clone(),
        }
    }
}

/// The tag block to start from: the one that was read, or an empty one, in
/// either case as an ID3v2 block.
pub fn prepare_tag(existing: Option<Tag>) -> (tag: Tag)
    ensures
        tag_is_id3v2(tag),
        tag_texts(tag) == spec_base_texts(existing),
        tag_other_items(tag) == spec_base_other(existing),
        tag_pictures(tag) == spec_base_pictures(existing),
{
    let mut tag = match existing {
        Some(t) => t,
        None => tag_new_id3v2(),
    };
    tag_re_map_id3v2(&mut tag);
    tag
}

/// Writes the artist into an ID3v2 block, where the plan offers one.
pub fn write_artist(tag: &mut Tag, plan: &TagPlan)
    requires
        tag_is_id3v2(*old(tag)),
    ensures
        tag_is_id3v2(*final(tag)),
        tag_texts(*final(tag)) == spec_offer(tag_texts(*old(tag)), TagField::Artist, plan@.artist),
        tag_other_items(*final(tag)) == tag_other_items(*old(tag)),
        tag_pictures(*final(tag)) == tag_pictures(*old(tag)),
{
    if is_wanted(&plan.artist) {
        match &plan.artist {
            Some(a) => tag_set_artist(tag, a.clone()),
            None => {},
        }
    }
}

/// Writes genre, comment and label into an ID3v2 block, each where the plan
/// offers one.
pub fn write_details(tag: &mut Tag, plan: &TagPlan)
    requires
        tag_is_id3v2(*old(tag)),
    ensures
        tag_is_id3v2(*final(tag)),
        tag_texts(*final(tag)) == spec_offer(
            spec_offer(
                spec_offer(tag_texts(*old(tag)), TagField::Genre, plan@.genre),
                TagField::Comment,
                plan@.comment,
            ),
            TagField::Label,
            plan@.label,
        ),
        tag_other_items(*final(tag)) == tag_other_items(*old(tag)),
        tag_pictures(*final(tag)) == tag_pictures(*old(tag)),
{
    if is_wanted(&plan.genre) {
        match &plan.genre {
            Some(g) => tag_set_genre(tag, g.clone()),
            None => {},
        }
    }
    if is_wanted(&plan.comment) {
        match &plan.comment {
            Some(c) => tag_insert_comment(tag, c.clone()),
            None => {},
        }
    }
    if is_wanted(&plan.label) {
        match &plan.label {
            Some(l) => tag_insert_raw_text(tag, "TPUB", l.clone()),
            None => {},
        }
    }
}

/// Embeds `image` as the front cover of a tag: it takes the first place among
/// the pictures, instead of the picture that was there, if any.
///
/// Fails, and leaves the tag as it is, exactly when `image` does not start
/// like an image file.
pub fn embed_cover(tag: &mut Tag, image: Vec<u8>) -> (r: Result<(), SyncError>)
    ensures
        r is Ok <==> has_picture_signature(image@),
        tag_is_id3v2(*final(tag)) == tag_is_id3v2(*old(tag)),
        tag_texts(*final(tag)) == tag_texts(*old(tag)),
        tag_other_items(*final(tag)) == tag_other_items(*old(tag)),
        r is Ok ==> tag_pictures(*final(tag)) == spec_set_picture(
            tag_pictures(*old(tag)),
            0,
            front_cover(image@),
        ),
        r matches Err(e) ==> e@.kind == ErrorKind::Parse && tag_pictures(*final(tag))
            == tag_pictures(*old(tag)),
{
    match picture_from_bytes(image) {
        Ok(p) => {
            let mut picture = p;
            picture_set_front_cover(&mut picture);
            tag_set_picture(tag, 0, picture);
            Ok(())
        },
        Err(e) => Err(SyncError::new(ErrorKind::Parse, lofty_error_text(&e))),
    }
}

/// A front cover with the given bytes.
pub open spec fn front_cover(data: Seq<u8>) -> PictureView {
    PictureView { front_cover: true, data }
}

/// Whether the pictures `after` are the pictures `before` with the cover of
/// `img` in the first place, as front cover.
pub open spec fn has_cover_of(before: Seq<PictureView>, after: Seq<PictureView>, img: DynamicImage) -> bool {
    exists|cover: Seq<u8>|
        is_cover_of(cover, img, COVER_SIZE, COVER_QUALITY) && after == spec_set_picture(
            before,
            0,
            #[trigger] front_cover(cover),
        )
}

/// Whether the pictures `after` are the pictures `before` with the cover of
/// some image, of which a cover can be made, in the first place.
pub open spec fn has_new_cover(before: Seq<PictureView>, after: Seq<PictureView>) -> bool {
    exists|img: DynamicImage|
        can_make_cover(img, COVER_SIZE) && #[trigger] has_cover_of(before, after, img)
}

/// Makes the cover of a decoded image and embeds it as the front cover, in
/// the first place among the pictures.
///
/// Succeeds exactly when a cover can be made of the image; where it fails,
/// it leaves the tag as it is.
pub fn embed_image(tag: &mut Tag, img: &DynamicImage) -> (r: Result<(), SyncError>)
    ensures
        r is Ok <==> can_make_cover(*img, COVER_SIZE),
        tag_is_id3v2(*final(tag)) == tag_is_id3v2(*old(tag)),
        tag_texts(*final(tag)) == tag_texts(*old(tag)),
        tag_other_items(*final(tag)) == tag_other_items(*old(tag)),
        r is Ok ==> has_cover_of(tag_pictures(*old(tag)), tag_pictures(*final(tag)), *img),
        r matches Err(e) ==> e@ == spec_cover_refusal(COVER_SIZE) && tag_pictures(*final(tag))
            == tag_pictures(*old(tag)),
{
    match cover_from_image(img, COVER_SIZE, COVER_QUALITY) {
        Ok(jpeg) => {
            let ghost cover = jpeg@;
            let r = embed_cover(tag, jpeg);
            proof {
                // A cover that was made starts as a JPEG file does, so it is not refused.
                assert(has_picture_signature(cover));
                assert(tag_pictures(*tag) == spec_set_picture(
                    tag_pictures(*old(tag)),
                    0,
                    front_cover(cover),
                ));
            }
            r
        },
        Err(e) => Err(e),
    }
}

/// Processes downloaded artwork into a cover and embeds it.
///
/// Fails, and leaves the tag as it is, when the artwork does not decode or
/// no cover can be made of what it decodes to; for what it decodes to, the
/// result is that of [`embed_image`].
pub fn embed_artwork(tag: &mut Tag, artwork: &[u8]) -> (r: Result<(), SyncError>)
    ensures
        tag_is_id3v2(*final(tag)) == tag_is_id3v2(*old(tag)),
        tag_texts(*final(tag)) == tag_texts(*old(tag)),
        tag_other_items(*final(tag)) == tag_other_items(*old(tag)),
        r is Ok ==> has_new_cover(tag_pictures(*old(tag)), tag_pictures(*final(tag))),
        r matches Err(e) ==> e@.kind == ErrorKind::Parse && tag_pictures(*final(tag))
            == tag_pictures(*old(tag)),
{
    match decode_artwork(artwork) {
        Ok(img) => {
            let r = embed_image(tag, &img);
            proof {
                if r is Ok {
                    assert(has_cover_of(tag_pictures(*old(tag)), tag_pictures(*tag), img));
                }
            }
            r
        },
        Err(e) => Err(e),
    }
}

/// The artwork to download for a plan: the address it offers, rewritten to
/// ask for the larger variant, or none.
pub open spec fn spec_artwork_request(plan: TagPlanView) -> Option<Seq<char>> {
    if wanted(plan.artwork_url) {
        Some(spec_normalize_artwork_url(plan.artwork_url->0))
    } else {
        None
    }
}

/// Tells which artwork to download for a plan, if any.
pub fn artwork_request(plan: &TagPlan) -> (r: Option<String>)
    ensures
        text_of(r) == spec_artwork_request(plan@),
{
    if is_wanted(&plan.artwork_url) {
        match &plan.artwork_url {
            Some(url) => Some(normalize_soundcloud_artwork_url(url.as_str())),
            None => None,
        }
    } else {
        None
    }
}


/// The image behind an optional reference.
pub open spec fn image_of(image: Option<&DynamicImage>) -> Option<DynamicImage> {
    match image {
        Some(img) => Some(*img),
        None => None,
    }
}

/// Whether `tag` is the block that was read as `existing`, or an empty one,
/// as an ID3v2 block with every text that the plan offers, and with the other
/// items it had.
pub open spec fn has_planned_texts(tag: Tag, existing: Option<Tag>, plan: TagPlanView) -> bool {
    &&& tag_is_id3v2(tag)
    &&& tag_texts(tag) == spec_texts_after(spec_base_texts(existing), plan)
    &&& tag_other_items(tag) == spec_base_other(existing)
}

/// What [`build_tag_with_image`] owes for a block read as `existing`, a plan
/// and, possibly, decoded artwork.
pub open spec fn spec_built_with_image(
    existing: Option<Tag>,
    plan: TagPlanView,
    image: Option<DynamicImage>,
    r: Result<Tag, SyncError>,
) -> bool {
    match r {
        Ok(tag) => {
            &&& has_planned_texts(tag, existing, plan)
            &&& match image {
                Some(img) => can_make_cover(img, COVER_SIZE) && has_cover_of(
                    spec_base_pictures(existing),
                    tag_pictures(tag),
                    img,
                ),
                None => tag_pictures(tag) == spec_base_pictures(existing),
            }
        },
        Err(e) => {
            &&& image matches Some(img)
            &&& !can_make_cover(img, COVER_SIZE)
            &&& e@ == spec_cover_refusal(COVER_SIZE)
        },
    }
}

/// Builds the tag block to write: the block that was read, or an empty one,
/// as an ID3v2 block, with every text that the plan offers, with the other
/// items it had and, where there is artwork, with its cover in the first
/// place among the pictures.
///
/// Fails exactly when there is artwork of which no cover can be made.
pub fn build_tag_with_image(existing: Option<Tag>, plan: &TagPlan, image: Option<&DynamicImage>) -> (r:
    Result<Tag, SyncError>)
    ensures
        spec_built_with_image(existing, plan@, image_of(image), r),
{
    let mut tag = prepare_tag(existing);
    write_artist(&mut tag, plan);
    match image {
        Some(img) => {
            match embed_image(&mut tag, img) {
                Ok(()) => {},
                Err(e) => {
                    return Err(e);
                },
            }
        },
        None => {},
    }
    write_details(&mut tag, plan);
    Ok(tag)
}

/// What [`build_tag`] owes for a block read as `existing`, a plan and,
/// possibly, downloaded artwork.
pub open spec fn spec_built(
    existing: Option<Tag>,
    plan: TagPlanView,
    with_artwork: bool,
    r: Result<Tag, SyncError>,
) -> bool {
    match r {
        Ok(tag) => {
            &&& has_planned_texts(tag, existing, plan)
            &&& with_artwork ==> has_new_cover(spec_base_pictures(existing), tag_pictures(tag))
            &&& !with_artwork ==> tag_pictures(tag) == spec_base_pictures(existing)
        },
        Err(e) => with_artwork && e@.kind == ErrorKind::Parse,
    }
}

/// Builds the tag block to write from artwork as it was downloaded.
///
/// Without artwork this never fails. With artwork it fails when the artwork
/// does not decode or no cover can be made of what it decodes to; for what it
/// decodes to, the result is that of [`build_tag_with_image`].
pub fn build_tag(existing: Option<Tag>, plan: &TagPlan, artwork: Option<&[u8]>) -> (r: Result<
    Tag,
    SyncError,
>)
    ensures
        spec_built(existing, plan@, artwork is Some, r),
{
    match artwork {
        Some(bytes) => match decode_artwork(bytes) {
            Ok(img) => {
                let r = build_tag_with_image(existing, plan, Some(&img));
                proof {
                    if r is Ok {
                        assert(has_cover_of(
                            spec_base_pictures(existing),
                            tag_pictures(r->Ok_0),
                            img,
                        ));
                    }
                }
                r
            },
            Err(e) => Err(e),
        },
        None => build_tag_with_image(existing, plan, None),
    }
}

/// Where the tag writer stands: the operation whose result it waits for.
#[derive(Debug, Clone, Copy, PartialEq, Eq, Structural)]
pub enum TagStage {
    /// The tag block of the file is being read.
    Reading,
    /// The artwork is being downloaded.
    Downloading,
    /// The new tag block is being written to the file.
    Writing,
    /// The tag writer is done.
    Done,
}

/// The tag writer's memory between two steps.
pub struct TagState {
    pub stage: TagStage,
    /// The file whose tag block is written.
    pub path: String,
    /// What is to be written.
    pub plan: TagPlan,
    /// The block that was read, kept while the artwork is downloaded.
    pub existing: Option<Tag>,
}

/// What the caller reports after performing an action.
pub enum TagEvent {
    /// The file's primary tag block, or none where it has none or cannot be read.
    Existing(Option<Tag>),
    /// The artwork, as downloaded.
    Artwork(Vec<u8>),
    /// The requested operation succeeded.
    Completed,
    /// The requested operation failed.
    Failed(String),
}

/// What the tag writer asks the caller to do next.
pub enum TagAction {
    /// Read the primary tag block of the file at `path`; report `Existing`.
    ReadTag { path: String },
    /// Download `url`; report `Artwork`, or `Failed`.
    DownloadArtwork { url: String },
    /// Write `tag` to the file at `path`, in place; report `Completed` or `Failed`.
    WriteTag { path: String, tag: Tag },
    /// The file is tagged. Nothing is left to do.
    Succeed,
    /// Tagging failed. Nothing is left to do.
    Fail(SyncError),
}

/// Whether `action` ends the tagging with a failure of this kind and message.
pub open spec fn fails_with(action: TagAction, kind: ErrorKind, message: Seq<char>) -> bool {
    action matches TagAction::Fail(e) && (e@.kind == kind && e@.message == message)
}

/// Whether `action` ends the tagging with a failure of this kind.
pub open spec fn fails_as(action: TagAction, kind: ErrorKind) -> bool {
    action matches TagAction::Fail(e) && e@.kind == kind
}

/// Whether `action` asks to write, to `path`, what [`build_tag`] owes.
pub open spec fn writes_built(
    action: TagAction,
    path: Seq<char>,
    existing: Option<Tag>,
    plan: TagPlanView,
    with_artwork: bool,
) -> bool {
    action matches TagAction::WriteTag { path: p, tag } && (p@ == path && spec_built(
        existing,
        plan,
        with_artwork,
        Ok(tag),
    ))
}

/// The tag writer's transitions: which next states and actions are allowed
/// for a state and a report.
///
/// A download that fails is a transport failure, a write that fails a
/// filesystem failure, artwork that cannot be processed a parse failure; a
/// report that the stage in progress cannot have produced ends the tagging
/// with a filesystem failure.
pub open spec fn spec_step(pre: TagState, event: TagEvent, post: TagState, action: TagAction) -> bool {
    &&& post.path@ == pre.path@
    &&& post.plan@ == pre.plan@
    &&& match (pre.stage, event) {
        (TagStage::Reading, TagEvent::Existing(existing)) => match spec_artwork_request(pre.plan@) {
            Some(url) => {
                &&& post.stage == TagStage::Downloading
                &&& post.existing == existing
                &&& action matches TagAction::DownloadArtwork { url: u }
                &&& u@ == url
            },
            None => {
                &&& post.stage == TagStage::Writing
                &&& writes_built(action, pre.path@, existing, pre.plan@, false)
            },
        },
        (TagStage::Downloading, TagEvent::Artwork(bytes)) => {
            ||| post.stage == TagStage::Writing && writes_built(
                action,
                pre.path@,
                pre.existing,
                pre.plan@,
                true,
            )
            ||| post.stage == TagStage::Done && fails_as(action, ErrorKind::Parse)
        },
        (TagStage::Downloading, TagEvent::Failed(m)) => post.stage == TagStage::Done && fails_with(
            action,
            ErrorKind::Transport,
            m@,
        ),
        (TagStage::Writing, TagEvent::Completed) => post.stage == TagStage::Done
            && action is Succeed,
        (TagStage::Writing, TagEvent::Failed(m)) => post.stage == TagStage::Done && fails_with(
            action,
            ErrorKind::Filesystem,
            m@,
        ),
        _ => post.stage == TagStage::Done && fails_with(
            action,
            ErrorKind::Filesystem,
            "unexpected event"@,
        ),
    }
}

/// Starts the tagging of the file at `path`: the first state, and the request
/// to read the file's tag block.
pub fn begin(path: &str, plan: TagPlan) -> (r: (TagState, TagAction))
    ensures
        r.0.stage == TagStage::Reading,
        r.0.path@ == path@,
        r.0.plan@ == plan@,
        r.0.existing is None,
        (r.1 matches TagAction::ReadTag { path: p } && p@ == path@),
{
    (
        TagState { stage: TagStage::Reading, path: path.to_owned(), plan, existing: None },
        TagAction::ReadTag { path: path.to_owned() },
    )
}

/// Ends the tagging with a failure.
fn fail(state: TagState, kind: ErrorKind, message: String) -> (r: (TagState, TagAction))
    ensures
        r.0.stage == TagStage::Done,
        r.0.path@ == state.path@,
        r.0.plan@ == state.plan@,
        fails_with(r.1, kind, message@),
{
    (
        TagState { stage: TagStage::Done, path: state.path, plan: state.plan, existing: None },
        TagAction::Fail(SyncError::new(kind, message)),
    )
}

/// What [`write_with_artwork`] owes: for artwork that has decoded, the
/// request to write the block that [`build_tag_with_image`] builds, or the
/// end with its refusal where no cover can be made; for artwork that has not
/// decoded, the end with the decoder's failure.
pub open spec fn spec_write_with_artwork(
    pre: TagState,
    decoded: Result<DynamicImage, SyncError>,
    post: TagState,
    action: TagAction,
) -> bool {
    &&& post.path@ == pre.path@
    &&& post.plan@ == pre.plan@
    &&& match decoded {
        Ok(img) => if can_make_cover(img, COVER_SIZE) {
            &&& post.stage == TagStage::Writing
            &&& action matches TagAction::WriteTag { path: p, tag }
            &&& p@ == pre.path@
            &&& spec_built_with_image(pre.existing, pre.plan@, Some(img), Ok(tag))
        } else {
            &&& post.stage == TagStage::Done
            &&& action matches TagAction::Fail(e)
            &&& e@ == spec_cover_refusal(COVER_SIZE)
        },
        Err(failure) => {
            &&& post.stage == TagStage::Done
            &&& action matches TagAction::Fail(e)
            &&& e@ == failure@
        },
    }
}

/// The step taken once the downloaded artwork has been handed to the
/// decoder: with an image, the block is built around its cover and asked to
/// be written; without one, tagging ends with the decoder's failure.
pub fn write_with_artwork(state: TagState, decoded: Result<DynamicImage, SyncError>) -> (r: (
    TagState,
    TagAction,
))
    ensures
        spec_write_with_artwork(state, decoded, r.0, r.1),
{
    let built = match decoded {
        Ok(img) => build_tag_with_image(state.existing, &state.plan, Some(&img)),
        Err(e) => Err(e),
    };
    match built {
        Ok(tag) => {
            let path = state.path.clone();
            (
                TagState {
                    stage: TagStage::Writing,
                    path: state.path,
                    plan: state.plan,
                    existing: None,
                },
                TagAction::WriteTag { path, tag },
            )
        },
        Err(e) => (
            TagState { stage: TagStage::Done, path: state.path, plan: state.plan, existing: None },
            TagAction::Fail(e),
        ),
    }
}

/// Takes one step: given what the caller reports about the last action, says
/// what to do next.
pub fn step(state: TagState, event: TagEvent) -> (r: (TagState, TagAction))
    ensures
        spec_step(state, event, r.0, r.1),
{
    match (state.stage, event) {
        (TagStage::Reading, TagEvent::Existing(existing)) => {
            match artwork_request(&state.plan) {
                Some(url) => (
                    TagState {
                        stage: TagStage::Downloading,
                        path: state.path,
                        plan: state.plan,
                        existing,
                    },
                    TagAction::DownloadArtwork { url },
                ),
                None => match build_tag(existing, &state.plan, None) {
                    Ok(tag) => {
                        let path = state.path.clone();
                        (
                            TagState {
                                stage: TagStage::Writing,
                                path: state.path,
                                plan: state.plan,
                                existing: None,
                            },
                            TagAction::WriteTag { path, tag },
                        )
                    },
                    Err(e) => {
                        // Without artwork the block is always built.
                        (
                            TagState {
                                stage: TagStage::Done,
                                path: state.path,
                                plan: state.plan,
                                existing: None,
                            },
                            TagAction::Fail(e),
                        )
                    },
                },
            }
        },
        (TagStage::Downloading, TagEvent::Artwork(bytes)) => {
            let decoded = decode_artwork(bytes.as_slice());
            let ghost given = decoded;
            let ghost before = state;
            let r = write_with_artwork(state, decoded);
            proof {
                if given is Ok && can_make_cover(given->Ok_0, COVER_SIZE) {
                    assert(has_cover_of(
                        spec_base_pictures(before.existing),
                        tag_pictures(r.1->WriteTag_tag),
                        given->Ok_0,
                    ));
                }
            }
            r
        },
        (TagStage::Downloading, TagEvent::Failed(m)) => fail(state, ErrorKind::Transport, m),
        (TagStage::Writing, TagEvent::Completed) => (
            TagState { stage: TagStage::Done, path: state.path, plan: state.plan, existing: None },
            TagAction::Succeed,
        ),
        (TagStage::Writing, TagEvent::Failed(m)) => fail(state, ErrorKind::Filesystem, m),
        (_, _) => fail(state, ErrorKind::Filesystem, "unexpected event".to_owned()),
    }
}

} // verus!
