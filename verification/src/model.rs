//! The catalog's data: releases as the remote API describes them, and how
//! they are read out of a JSON document.
//!
//! A member that a type marks as optional may be left out of the document or
//! be `null`; both mean that it was not given. Members that the types do not
//! know are passed over. A required member that is missing, or any member of
//! the wrong kind, makes the whole document unreadable: nothing is guessed.

use crate::json::{content, JsonValue};
use vstd::prelude::*;

verus! {

/// The titles of a release.
#[derive(Debug, Clone)]
pub struct AnimeName {
    pub main: String,
    pub english: Option<String>,
    pub alternative: Option<String>,
}

/// What an [`AnimeName`] holds.
pub struct AnimeNameView {
    pub main: Seq<char>,
    pub english: Option<Seq<char>>,
    pub alternative: Option<Seq<char>>,
}

impl DeepView for AnimeName {
    type V = AnimeNameView;

    open spec fn deep_view(&self) -> AnimeNameView {
        AnimeNameView {
            main: self.main@,
            english: self.english.deep_view(),
            alternative: self.alternative.deep_view(),
        }
    }
}

/// The images of a release, as URLs.
#[derive(Debug, Clone)]
pub struct AnimePoster {
    pub src: String,
    pub preview: String,
    pub thumbnail: Option<String>,
}

/// What an [`AnimePoster`] holds.
pub struct AnimePosterView {
    pub src: Seq<char>,
    pub preview: Seq<char>,
    pub thumbnail: Option<Seq<char>>,
}

impl DeepView for AnimePoster {
    type V = AnimePosterView;

    open spec fn deep_view(&self) -> AnimePosterView {
        AnimePosterView {
            src: self.src@,
            preview: self.preview@,
            thumbnail: self.thumbnail.deep_view(),
        }
    }
}

/// A genre that a release is filed under.
#[derive(Debug, Clone)]
pub struct Genre {
    pub id: Option<u64>,
    pub name: String,
}

/// What a [`Genre`] holds.
pub struct GenreView {
    pub id: Option<u64>,
    pub name: Seq<char>,
}

impl DeepView for Genre {
    type V = GenreView;

    open spec fn deep_view(&self) -> GenreView {
        GenreView { id: self.id, name: self.name@ }
    }
}

/// One episode of a release. The stream description is kept as the API
/// sent it.
#[derive(Debug, Clone)]
pub struct Episode {
    pub episode: u32,
    pub name: Option<String>,
    pub uuid: String,
    pub hls: Option<serde_json::Value>,
}

/// The player data of a release. The episode list is kept as the API sent
/// it.
#[derive(Debug, Clone)]
pub struct Player {
    pub host: String,
    pub list: serde_json::Value,
}

/// A release as the catalog lists it.
#[derive(Debug, Clone)]
pub struct Anime {
    pub id: u64,
    pub name: AnimeName,
    pub poster: AnimePoster,
    pub year: Option<u32>,
    pub description: Option<String>,
    pub genres: Option<Vec<Genre>>,
    /// Player data, never interpreted here: the document that the API sent.
    pub player: Option<serde_json::Value>,
}

/// What an [`Anime`] holds.
pub struct AnimeView {
    pub id: u64,
    pub name: AnimeNameView,
    pub poster: AnimePosterView,
    pub year: Option<u32>,
    pub description: Option<Seq<char>>,
    pub genres: Option<Seq<GenreView>>,
    pub player: Option<JsonValue>,
}

impl DeepView for Anime {
    type V = AnimeView;

    open spec fn deep_view(&self) -> AnimeView {
        AnimeView {
            id: self.id,
            name: self.name.deep_view(),
            poster: self.poster.deep_view(),
            year: self.year,
            description: self.description.deep_view(),
            genres: self.genres.deep_view(),
            player: match self.player {
                Some(v) => Some(content(v)),
                None => None,
            },
        }
    }
}

} // verus!
