//! Catalogue entries: what every entry carries, the part that depends on its
//! kind, and the untyped form in which listings of mixed kinds arrive.

use vstd::prelude::*;
use crate::error::{DecodeError, DecodeErrorView};

verus! {

/// The kinds of catalogue entry.
#[derive(Clone, Copy, Debug, PartialEq, Eq, Structural)]
pub enum MediaKind {
    Series,
    Season,
    Episode,
    MovieListing,
    Movie,
}

impl MediaKind {
    /// The token that stands for this kind on the wire.
    pub open spec fn token(self) -> Seq<char> {
        match self {
            MediaKind::Series => "series"@,
            MediaKind::Season => "season"@,
            MediaKind::Episode => "episode"@,
            MediaKind::MovieListing => "movie_listing"@,
            MediaKind::Movie => "movie"@,
        }
    }

    /// The token that stands for this kind on the wire.
    pub fn as_str(self) -> (r: &'static str)
        ensures
            r@ == self.token(),
    {
        match self {
            MediaKind::Series => "series",
            MediaKind::Season => "season",
            MediaKind::Episode => "episode",
            MediaKind::MovieListing => "movie_listing",
            MediaKind::Movie => "movie",
        }
    }
}

/// The two kinds of entry that a catalogue listing can be narrowed to.
#[derive(Clone, Copy, Debug, PartialEq, Eq, Structural)]
pub enum MediaType {
    Series,
    Movie,
}

impl MediaType {
    /// The token that stands for this type in a query.
    pub open spec fn token(self) -> Seq<char> {
        match self {
            MediaType::Series => "series"@,
            MediaType::Movie => "movie_listing"@,
        }
    }

    /// The token that stands for this type in a query.
    pub fn as_str(self) -> (r: &'static str)
        ensures
            r@ == self.token(),
    {
        match self {
            MediaType::Series => "series",
            MediaType::Movie => "movie_listing",
        }
    }
}

/// What is known of a series beyond the common fields.
#[derive(Clone, Copy, Debug, PartialEq, Eq, Structural)]
pub struct Series {
    pub season_count: u32,
    pub episode_count: u32,
    pub is_simulcast: bool,
}

/// What is known of a season beyond the common fields.
#[derive(Clone, Copy, Debug, PartialEq, Eq, Structural)]
pub struct Season {
    pub season_number: u32,
    pub episode_count: u32,
}

/// What is known of an episode beyond the common fields.
#[derive(Clone, Copy, Debug, PartialEq, Eq, Structural)]
pub struct Episode {
    pub season_number: u32,
    pub episode_number: u32,
    pub duration_ms: u32,
}

/// What is known of a movie listing beyond the common fields.
#[derive(Clone, Copy, Debug, PartialEq, Eq, Structural)]
pub struct MovieListing {
    pub release_year: u32,
    pub is_dubbed: bool,
    pub is_subbed: bool,
}

/// What is known of a movie beyond the common fields.
#[derive(Clone, Copy, Debug, PartialEq, Eq, Structural)]
pub struct Movie {
    pub duration_ms: u32,
}

/// A catalogue entry of a known kind: the fields common to all kinds, and
/// the kind's own facts in `metadata`.
#[derive(Debug, PartialEq, Eq)]
pub struct Media<M> {
    pub id: String,
    pub title: String,
    pub description: String,
    pub metadata: M,
}

/// Mathematical model of a [`Media`].
pub ghost struct MediaView<M> {
    pub id: Seq<char>,
    pub title: Seq<char>,
    pub description: Seq<char>,
    pub metadata: M,
}

impl<M> View for Media<M> {
    type V = MediaView<M>;

    open spec fn view(&self) -> MediaView<M> {
        MediaView {
            id: self.id@,
            title: self.title@,
            description: self.description@,
            metadata: self.metadata,
        }
    }
}

impl<M> DeepView for Media<M> {
    type V = MediaView<M>;

    open spec fn deep_view(&self) -> MediaView<M> {
        self.view()
    }
}

impl<M: Copy> Clone for Media<M> {
    fn clone(&self) -> (r: Self)
        ensures
            r == *self,
    {
        Media {
            id: self.id.clone(),
            title: self.title.clone(),
            description: self.description.clone(),
            metadata: self.metadata,
        }
    }
}

/// A catalogue entry whose kind is only known at run time.
#[derive(Debug, PartialEq, Eq)]
pub enum MediaCollection {
    Series(Media<Series>),
    Season(Media<Season>),
    Episode(Media<Episode>),
    MovieListing(Media<MovieListing>),
    Movie(Media<Movie>),
}

/// Mathematical model of a [`MediaCollection`].
pub ghost enum MediaCollectionView {
    Series(MediaView<Series>),
    Season(MediaView<Season>),
    Episode(MediaView<Episode>),
    MovieListing(MediaView<MovieListing>),
    Movie(MediaView<Movie>),
}

impl MediaCollectionView {
    /// The kind of entry this is.
    pub open spec fn kind(self) -> MediaKind {
        match self {
            MediaCollectionView::Series(_) => MediaKind::Series,
            MediaCollectionView::Season(_) => MediaKind::Season,
            MediaCollectionView::Episode(_) => MediaKind::Episode,
            MediaCollectionView::MovieListing(_) => MediaKind::MovieListing,
            MediaCollectionView::Movie(_) => MediaKind::Movie,
        }
    }

    /// The error that reports this entry where one of kind `expected` was
    /// called for.
    pub open spec fn mismatch(self, expected: MediaKind) -> DecodeErrorView {
        DecodeErrorView::ShapeMismatch { expected, found: self.kind() }
    }

    /// This entry as a series: it is one, or the conversion fails.
    pub open spec fn as_series(self) -> Result<MediaView<Series>, DecodeErrorView> {
        match self {
            MediaCollectionView::Series(m) => Ok(m),
            _ => Err(self.mismatch(MediaKind::Series)),
        }
    }

    /// This entry as a movie listing: it is one, or the conversion fails.
    pub open spec fn as_movie_listing(self) -> Result<MediaView<MovieListing>, DecodeErrorView> {
        match self {
            MediaCollectionView::MovieListing(m) => Ok(m),
            _ => Err(self.mismatch(MediaKind::MovieListing)),
        }
    }

    /// This entry as an episode: it is one, or the conversion fails.
    pub open spec fn as_episode(self) -> Result<MediaView<Episode>, DecodeErrorView> {
        match self {
            MediaCollectionView::Episode(m) => Ok(m),
            _ => Err(self.mismatch(MediaKind::Episode)),
        }
    }
}

/// The model of the outcome of converting one entry.
pub open spec fn converted<M>(r: Result<Media<M>, DecodeError>) -> Result<
    MediaView<M>,
    DecodeErrorView,
> {
    match r {
        Ok(m) => Ok(m@),
        Err(e) => Err(e@),
    }
}

impl View for MediaCollection {
    type V = MediaCollectionView;

    open spec fn view(&self) -> MediaCollectionView {
        match self {
            MediaCollection::Series(m) => MediaCollectionView::Series(m@),
            MediaCollection::Season(m) => MediaCollectionView::Season(m@),
            MediaCollection::Episode(m) => MediaCollectionView::Episode(m@),
            MediaCollection::MovieListing(m) => MediaCollectionView::MovieListing(m@),
            MediaCollection::Movie(m) => MediaCollectionView::Movie(m@),
        }
    }
}

impl DeepView for MediaCollection {
    type V = MediaCollectionView;

    open spec fn deep_view(&self) -> MediaCollectionView {
        self.view()
    }
}

impl Clone for MediaCollection {
    fn clone(&self) -> (r: Self)
        ensures
            r == *self,
    {
        match self {
            MediaCollection::Series(m) => MediaCollection::Series(m.clone()),
            MediaCollection::Season(m) => MediaCollection::Season(m.clone()),
            MediaCollection::Episode(m) => MediaCollection::Episode(m.clone()),
            MediaCollection::MovieListing(m) => MediaCollection::MovieListing(m.clone()),
            MediaCollection::Movie(m) => MediaCollection::Movie(m.clone()),
        }
    }
}

impl MediaCollection {
    /// The kind of entry this is.
    pub fn kind(&self) -> (k: MediaKind)
        ensures
            k == self@.kind(),
    {
        match self {
            MediaCollection::Series(_) => MediaKind::Series,
            MediaCollection::Season(_) => MediaKind::Season,
            MediaCollection::Episode(_) => MediaKind::Episode,
            MediaCollection::MovieListing(_) => MediaKind::MovieListing,
            MediaCollection::Movie(_) => MediaKind::Movie,
        }
    }

    /// A copy of this entry as a series. Fails with a shape mismatch, naming
    /// the kind found, where the entry is of another kind.
    pub fn to_series(&self) -> (r: Result<Media<Series>, DecodeError>)
        ensures
            converted(r) == self@.as_series(),
    {
        match self {
            MediaCollection::Series(m) => Ok(m.clone()),
            _ => Err(DecodeError::ShapeMismatch { expected: MediaKind::Series, found: self.kind() }),
        }
    }

    /// A copy of this entry as a movie listing. Fails with a shape mismatch,
    /// naming the kind found, where the entry is of another kind.
    pub fn to_movie_listing(&self) -> (r: Result<Media<MovieListing>, DecodeError>)
        ensures
            converted(r) == self@.as_movie_listing(),
    {
        match self {
            MediaCollection::MovieListing(m) => Ok(m.clone()),
            _ => Err(
                DecodeError::ShapeMismatch {
                    expected: MediaKind::MovieListing,
                    found: self.kind(),
                },
            ),
        }
    }

    /// A copy of this entry as an episode. Fails with a shape mismatch,
    /// naming the kind found, where the entry is of another kind.
    pub fn to_episode(&self) -> (r: Result<Media<Episode>, DecodeError>)
        ensures
            converted(r) == self@.as_episode(),
    {
        match self {
            MediaCollection::Episode(m) => Ok(m.clone()),
            _ => Err(DecodeError::ShapeMismatch { expected: MediaKind::Episode, found: self.kind() }),
        }
    }
}

} // verus!
