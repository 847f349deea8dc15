//! Reading the catalog's data out of JSON documents.
//!
//! Each reader comes with a specification function of the same shape, which
//! says over the document's content ([`JsonValue`]) what is read and when
//! nothing is: the reader returns exactly that.

use crate::json::{
    content, contents, elements_of, member, member_of, text_of, unsigned_of, JsonValue,
};
use crate::model::{
    Anime, AnimeName, AnimeNameView, AnimePoster, AnimePosterView, AnimeView, Genre, GenreView,
};
use vstd::prelude::*;

verus! {

/// The member of `j` under `key` where one is given: a member that is
/// missing and one that is `null` both count as not given.
pub open spec fn given(j: JsonValue, key: Seq<char>) -> Option<JsonValue> {
    match member_of(j, key) {
        Some(JsonValue::Null) => None,
        m => m,
    }
}

/// The string under `key`; `None` unless `j` has such a member and it is a
/// string.
pub open spec fn text_at(j: JsonValue, key: Seq<char>) -> Option<Seq<char>> {
    match member_of(j, key) {
        Some(m) => text_of(m),
        None => None,
    }
}

/// The string under `key` where one is given; the outer `None` where the
/// member is given and is no string.
pub open spec fn optional_text_at(j: JsonValue, key: Seq<char>) -> Option<Option<Seq<char>>> {
    match given(j, key) {
        None => Some(None),
        Some(m) => match text_of(m) {
            Some(s) => Some(Some(s)),
            None => None,
        },
    }
}

/// The unsigned integer under `key`; `None` unless `j` has such a member and
/// it is a non-negative integer below 2^64.
pub open spec fn unsigned_at(j: JsonValue, key: Seq<char>) -> Option<u64> {
    match member_of(j, key) {
        Some(m) => unsigned_of(m),
        None => None,
    }
}

/// The unsigned integer under `key` where one is given; the outer `None`
/// where the member is given and is no such integer.
pub open spec fn optional_unsigned_at(j: JsonValue, key: Seq<char>) -> Option<Option<u64>> {
    match given(j, key) {
        None => Some(None),
        Some(m) => match unsigned_of(m) {
            Some(n) => Some(Some(n)),
            None => None,
        },
    }
}

/// The titles that `j` describes: `main` is required, `english` and
/// `alternative` are optional, all three are strings.
pub open spec fn name_of(j: JsonValue) -> Option<AnimeNameView> {
    match (text_at(j, "main"@), optional_text_at(j, "english"@), optional_text_at(
        j,
        "alternative"@,
    )) {
        (Some(main), Some(english), Some(alternative)) => Some(
            AnimeNameView { main, english, alternative },
        ),
        _ => None,
    }
}

/// The images that `j` describes: `src` and `preview` are required,
/// `thumbnail` is optional, all three are strings.
pub open spec fn poster_of(j: JsonValue) -> Option<AnimePosterView> {
    match (text_at(j, "src"@), text_at(j, "preview"@), optional_text_at(j, "thumbnail"@)) {
        (Some(src), Some(preview), Some(thumbnail)) => Some(
            AnimePosterView { src, preview, thumbnail },
        ),
        _ => None,
    }
}

/// The genre that `j` describes: `name` is a required string, `id` an
/// optional unsigned integer.
pub open spec fn genre_of(j: JsonValue) -> Option<GenreView> {
    match (optional_unsigned_at(j, "id"@), text_at(j, "name"@)) {
        (Some(id), Some(name)) => Some(GenreView { id, name }),
        _ => None,
    }
}

/// The genres that the documents `items` describe, in order; `None` where
/// one of them describes no genre.
pub open spec fn genres_in(items: Seq<JsonValue>) -> Option<Seq<GenreView>> {
    if forall|i: int| 0 <= i < items.len() ==> (#[trigger] genre_of(items[i])) is Some {
        Some(Seq::new(items.len(), |i: int| genre_of(items[i]).unwrap()))
    } else {
        None
    }
}

/// The year under `year` where one is given; the outer `None` where the
/// member is given and is no unsigned integer below 2^32.
pub open spec fn year_of(j: JsonValue) -> Option<Option<u32>> {
    match optional_unsigned_at(j, "year"@) {
        Some(Some(y)) => if y <= u32::MAX {
            Some(Some(y as u32))
        } else {
            None
        },
        Some(None) => Some(None),
        None => None,
    }
}

/// The genres under `genres` where the member is given; the outer `None`
/// where it is given and is no array of genres.
pub open spec fn genres_of(j: JsonValue) -> Option<Option<Seq<GenreView>>> {
    match given(j, "genres"@) {
        None => Some(None),
        Some(m) => match elements_of(m) {
            Some(items) => match genres_in(items) {
                Some(genres) => Some(Some(genres)),
                None => None,
            },
            None => None,
        },
    }
}

/// The release that `j` describes. `id`, `name` and `poster` are required;
/// `year`, `description`, `genres` and `player` are optional, and `player`
/// is taken over as it stands.
pub open spec fn anime_of(j: JsonValue) -> Option<AnimeView> {
    match (
        unsigned_at(j, "id"@),
        member_of(j, "name"@),
        member_of(j, "poster"@),
        year_of(j),
        optional_text_at(j, "description"@),
        genres_of(j),
    ) {
        (Some(id), Some(name), Some(poster), Some(year), Some(description), Some(genres)) => match (
            name_of(name),
            poster_of(poster),
        ) {
            (Some(name), Some(poster)) => Some(
                AnimeView {
                    id,
                    name,
                    poster,
                    year,
                    description,
                    genres,
                    player: given(j, "player"@),
                },
            ),
            _ => None,
        },
        _ => None,
    }
}

/// The releases that the documents `items` describe, in order; `None` where
/// one of them describes no release.
pub open spec fn animes_in(items: Seq<JsonValue>) -> Option<Seq<AnimeView>> {
    if forall|i: int| 0 <= i < items.len() ==> (#[trigger] anime_of(items[i])) is Some {
        Some(Seq::new(items.len(), |i: int| anime_of(items[i]).unwrap()))
    } else {
        None
    }
}

/// The releases that `j` lists: `j` is an array and each element describes
/// a release.
pub open spec fn releases_of(j: JsonValue) -> Option<Seq<AnimeView>> {
    match elements_of(j) {
        Some(items) => animes_in(items),
        None => None,
    }
}

/// The releases of a catalog page: `j` is an envelope whose member `data`
/// lists them. Nothing else of the envelope is read.
pub open spec fn page_of(j: JsonValue) -> Option<Seq<AnimeView>> {
    match member_of(j, "data"@) {
        Some(data) => releases_of(data),
        None => None,
    }
}

fn given_member<'a>(v: &'a serde_json::Value, key: &str) -> (r: Option<&'a serde_json::Value>)
    ensures
        match r {
            Some(m) => given(content(*v), key@) == Some(content(*m)),
            None => given(content(*v), key@) is None,
        },
{
    match member(v, key) {
        Some(m) => if m.is_null() {
            None
        } else {
            Some(m)
        },
        None => None,
    }
}

fn read_text(v: &serde_json::Value, key: &str) -> (r: Option<String>)
    ensures
        r.deep_view() == text_at(content(*v), key@),
{
    match member(v, key) {
        Some(m) => match m.as_str() {
            Some(s) => Some(s.to_owned()),
            None => None,
        },
        None => None,
    }
}

fn read_optional_text(v: &serde_json::Value, key: &str) -> (r: Option<Option<String>>)
    ensures
        r.deep_view() == optional_text_at(content(*v), key@),
{
    match given_member(v, key) {
        None => Some(None),
        Some(m) => match m.as_str() {
            Some(s) => Some(Some(s.to_owned())),
            None => None,
        },
    }
}

fn read_unsigned(v: &serde_json::Value, key: &str) -> (r: Option<u64>)
    ensures
        r == unsigned_at(content(*v), key@),
{
    match member(v, key) {
        Some(m) => m.as_u64(),
        None => None,
    }
}

fn read_optional_unsigned(v: &serde_json::Value, key: &str) -> (r: Option<Option<u64>>)
    ensures
        r == optional_unsigned_at(content(*v), key@),
{
    match given_member(v, key) {
        None => Some(None),
        Some(m) => match m.as_u64() {
            Some(n) => Some(Some(n)),
            None => None,
        },
    }
}

/// Reads the titles of a release.
pub fn decode_name(v: &serde_json::Value) -> (r: Option<AnimeName>)
    ensures
        r.deep_view() == name_of(content(*v)),
{
    let main = read_text(v, "main");
    let english = read_optional_text(v, "english");
    let alternative = read_optional_text(v, "alternative");
    match (main, english, alternative) {
        (Some(main), Some(english), Some(alternative)) => Some(
            AnimeName { main, english, alternative },
        ),
        _ => None,
    }
}

/// Reads the images of a release.
pub fn decode_poster(v: &serde_json::Value) -> (r: Option<AnimePoster>)
    ensures
        r.deep_view() == poster_of(content(*v)),
{
    let src = read_text(v, "src");
    let preview = read_text(v, "preview");
    let thumbnail = read_optional_text(v, "thumbnail");
    match (src, preview, thumbnail) {
        (Some(src), Some(preview), Some(thumbnail)) => Some(
            AnimePoster { src, preview, thumbnail },
        ),
        _ => None,
    }
}

/// Reads a genre.
pub fn decode_genre(v: &serde_json::Value) -> (r: Option<Genre>)
    ensures
        r.deep_view() == genre_of(content(*v)),
{
    let id = read_optional_unsigned(v, "id");
    let name = read_text(v, "name");
    match (id, name) {
        (Some(id), Some(name)) => Some(Genre { id, name }),
        _ => None,
    }
}

fn decode_genre_list(items: &Vec<serde_json::Value>) -> (r: Option<Vec<Genre>>)
    ensures
        r.deep_view() == genres_in(contents(items@)),
{
    let ghost docs = contents(items@);
    let mut out: Vec<Genre> = Vec::new();
    let mut i: usize = 0;
    while i < items.len()
        invariant
            docs == contents(items@),
            i <= items.len(),
            out.len() == i,
            forall|k: int| 0 <= k < i ==> (#[trigger] genre_of(docs[k])) == Some(out@[k].deep_view()),
        decreases items.len() - i,
    {
        match decode_genre(&items[i]) {
            Some(g) => {
                out.push(g);
            },
            None => {
                assert(genre_of(docs[i as int]) is None);
                return None;
            },
        }
        i += 1;
    }
    Some(out)
}

fn read_year(v: &serde_json::Value) -> (r: Option<Option<u32>>)
    ensures
        r == year_of(content(*v)),
{
    match read_optional_unsigned(v, "year") {
        Some(Some(y)) => if y <= 0xffff_ffff {
            Some(Some(y as u32))
        } else {
            None
        },
        Some(None) => Some(None),
        None => None,
    }
}

fn read_genres(v: &serde_json::Value) -> (r: Option<Option<Vec<Genre>>>)
    ensures
        r.deep_view() == genres_of(content(*v)),
{
    match given_member(v, "genres") {
        None => Some(None),
        Some(m) => match m.as_array() {
            Some(items) => match decode_genre_list(items) {
                Some(genres) => Some(Some(genres)),
                None => None,
            },
            None => None,
        },
    }
}

/// Reads a release.
pub fn decode_anime(v: &serde_json::Value) -> (r: Option<Anime>)
    ensures
        r.deep_view() == anime_of(content(*v)),
{
    let id = read_unsigned(v, "id");
    let name = member(v, "name");
    let poster = member(v, "poster");
    let year = read_year(v);
    let description = read_optional_text(v, "description");
    let genres = read_genres(v);
    match (id, name, poster, year, description, genres) {
        (Some(id), Some(name), Some(poster), Some(year), Some(description), Some(genres)) => {
            match (decode_name(name), decode_poster(poster)) {
                (Some(name), Some(poster)) => {
                    let player = match given_member(v, "player") {
                        Some(p) => Some(p.clone()),
                        None => None,
                    };
                    Some(Anime { id, name, poster, year, description, genres, player })
                },
                _ => None,
            }
        },
        _ => None,
    }
}

fn decode_anime_list(items: &Vec<serde_json::Value>) -> (r: Option<Vec<Anime>>)
    ensures
        r.deep_view() == animes_in(contents(items@)),
{
    let ghost docs = contents(items@);
    let mut out: Vec<Anime> = Vec::new();
    let mut i: usize = 0;
    while i < items.len()
        invariant
            docs == contents(items@),
            i <= items.len(),
            out.len() == i,
            forall|k: int| 0 <= k < i ==> (#[trigger] anime_of(docs[k])) == Some(out@[k].deep_view()),
        decreases items.len() - i,
    {
        match decode_anime(&items[i]) {
            Some(a) => {
                out.push(a);
            },
            None => {
                assert(anime_of(docs[i as int]) is None);
                return None;
            },
        }
        i += 1;
    }
    Some(out)
}

/// Reads a list of releases.
pub fn decode_releases(v: &serde_json::Value) -> (r: Option<Vec<Anime>>)
    ensures
        r.deep_view() == releases_of(content(*v)),
{
    match v.as_array() {
        Some(items) => decode_anime_list(items),
        None => None,
    }
}

/// Reads the releases of a catalog page out of its envelope.
pub fn decode_page(v: &serde_json::Value) -> (r: Option<Vec<Anime>>)
    ensures
        r.deep_view() == page_of(content(*v)),
{
    match member(v, "data") {
        Some(data) => decode_releases(data),
        None => None,
    }
}

} // verus!
