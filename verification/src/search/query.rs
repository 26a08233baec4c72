//! Searching the catalogue: the options of a search, the result as the
//! service sends it, grouped under string discriminators, and its decoding
//! into one typed bucket per discriminator.

use vstd::prelude::*;
use vstd::std_specs::convert::TryFromSpecImpl;
use crate::common::{BulkResult, BulkResultView};
use crate::error::{DecodeError, DecodeErrorView};
use crate::media::{
    Episode, Media, MediaCollection, MediaCollectionView, MediaKind, MediaView, MovieListing,
    Series,
};
use crate::options::{emit, emit_pairs, Field, Pair, DEFAULT_LIMIT};
use crate::scan::{
    first_where, last_where, lemma_first_where, lemma_first_where_is, lemma_last_where,
    lemma_last_where_is, lemma_where_none,
};
use crate::text::{decimal, u32_to_decimal};

verus! {

/// The discriminators under which a search groups its results.
#[derive(Clone, Copy, Debug, PartialEq, Eq, Structural)]
pub enum Discriminator {
    TopResults,
    Series,
    MovieListing,
    Episode,
}

impl Discriminator {
    /// The token that stands for this discriminator on the wire.
    pub open spec fn token(self) -> Seq<char> {
        match self {
            Discriminator::TopResults => "top_results"@,
            Discriminator::Series => "series"@,
            Discriminator::MovieListing => "movie_listing"@,
            Discriminator::Episode => "episode"@,
        }
    }

    /// The discriminator that `tag` stands for, if it is a recognised one.
    pub open spec fn of_token(tag: Seq<char>) -> Option<Discriminator> {
        if tag == "top_results"@ {
            Some(Discriminator::TopResults)
        } else if tag == "series"@ {
            Some(Discriminator::Series)
        } else if tag == "movie_listing"@ {
            Some(Discriminator::MovieListing)
        } else if tag == "episode"@ {
            Some(Discriminator::Episode)
        } else {
            None
        }
    }

    /// The kind that every entry of a group under this discriminator must
    /// have. Top results mix kinds, so nothing is asked of their entries.
    pub open spec fn entry_kind(self) -> Option<MediaKind> {
        match self {
            Discriminator::TopResults => None,
            Discriminator::Series => Some(MediaKind::Series),
            Discriminator::MovieListing => Some(MediaKind::MovieListing),
            Discriminator::Episode => Some(MediaKind::Episode),
        }
    }

    /// The token that stands for this discriminator on the wire.
    pub fn as_str(self) -> (r: &'static str)
        ensures
            r@ == self.token(),
    {
        match self {
            Discriminator::TopResults => "top_results",
            Discriminator::Series => "series",
            Discriminator::MovieListing => "movie_listing",
            Discriminator::Episode => "episode",
        }
    }

    /// Reads a discriminator from its wire token. Tokens are compared
    /// exactly: case and surrounding space matter.
    pub fn from_token(tag: &str) -> (r: Option<Discriminator>)
        ensures
            r == Discriminator::of_token(tag@),
    {
        let tag = String::from_str(tag);
        if tag == String::from_str("top_results") {
            Some(Discriminator::TopResults)
        } else if tag == String::from_str("series") {
            Some(Discriminator::Series)
        } else if tag == String::from_str("movie_listing") {
            Some(Discriminator::MovieListing)
        } else if tag == String::from_str("episode") {
            Some(Discriminator::Episode)
        } else {
            None
        }
    }
}

/// Every discriminator is read back from its own token: no two share one.
pub proof fn lemma_token_round_trip(kind: Discriminator)
    ensures
        Discriminator::of_token(kind.token()) == Some(kind),
{
    reveal_strlit("top_results");
    reveal_strlit("series");
    reveal_strlit("movie_listing");
    reveal_strlit("episode");
    assert("series"@.len() == 6);
    assert("episode"@.len() == 7);
    assert("top_results"@.len() == 11);
    assert("movie_listing"@.len() == 13);
}

/// One group of a search result as the service sends it: a discriminator,
/// the entries filed under it, and the number of entries the service knows
/// of under it.
#[derive(Clone, Debug, PartialEq, Eq)]
pub struct QueryBulkResult {
    pub result_type: String,
    pub items: Vec<MediaCollection>,
    pub total: u32,
}

/// Mathematical model of a [`QueryBulkResult`].
pub ghost struct QueryBulkResultView {
    pub result_type: Seq<char>,
    pub items: Seq<MediaCollectionView>,
    pub total: u32,
}

impl View for QueryBulkResult {
    type V = QueryBulkResultView;

    open spec fn view(&self) -> QueryBulkResultView {
        QueryBulkResultView {
            result_type: self.result_type@,
            items: self.items.deep_view(),
            total: self.total,
        }
    }
}

impl Default for QueryBulkResult {
    /// A group with the empty discriminator, no entries and the total 0.
    fn default() -> (r: Self)
        ensures
            r@ == (QueryBulkResultView {
                result_type: Seq::empty(),
                items: Seq::empty(),
                total: 0,
            }),
    {
        let r = QueryBulkResult { result_type: String::new(), items: Vec::new(), total: 0 };
        assert(r.items.deep_view() =~= Seq::<MediaCollectionView>::empty());
        r
    }
}

impl DeepView for QueryBulkResult {
    type V = QueryBulkResultView;

    open spec fn deep_view(&self) -> QueryBulkResultView {
        self.view()
    }
}

/// A search result, one bucket per discriminator. A bucket is present
/// exactly if the service sent at least one group under its discriminator,
/// also where every such group was empty. It holds the entries of all these
/// groups, in the order in which they came.
#[derive(Clone, Debug, PartialEq, Eq)]
pub struct QueryResults {
    pub top_results: Option<BulkResult<MediaCollection>>,
    pub series: Option<BulkResult<Media<Series>>>,
    pub movie_listing: Option<BulkResult<Media<MovieListing>>>,
    pub episode: Option<BulkResult<Media<Episode>>>,
}

/// Mathematical model of a [`QueryResults`].
pub ghost struct QueryResultsView {
    pub top_results: Option<BulkResultView<MediaCollectionView>>,
    pub series: Option<BulkResultView<MediaView<Series>>>,
    pub movie_listing: Option<BulkResultView<MediaView<MovieListing>>>,
    pub episode: Option<BulkResultView<MediaView<Episode>>>,
}

impl View for QueryResults {
    type V = QueryResultsView;

    open spec fn view(&self) -> QueryResultsView {
        QueryResultsView {
            top_results: self.top_results.deep_view(),
            series: self.series.deep_view(),
            movie_listing: self.movie_listing.deep_view(),
            episode: self.episode.deep_view(),
        }
    }
}

impl Default for QueryResults {
    /// The result with every bucket absent.
    fn default() -> (r: Self)
        ensures
            r@ == (QueryResultsView {
                top_results: None,
                series: None,
                movie_listing: None,
                episode: None,
            }),
    {
        QueryResults { top_results: None, series: None, movie_listing: None, episode: None }
    }
}

/// Mathematical model of the envelope in which a search result arrives.
pub type EnvelopeView = BulkResultView<QueryBulkResultView>;

/// The groups filed under `kind`.
pub open spec fn tagged(kind: Discriminator) -> spec_fn(QueryBulkResultView) -> bool {
    |g: QueryBulkResultView| Discriminator::of_token(g.result_type) == Some(kind)
}

/// The entries that are not of kind `kind`.
pub open spec fn is_not(kind: MediaKind) -> spec_fn(MediaCollectionView) -> bool {
    |c: MediaCollectionView| c.kind() != kind
}

/// Why the group `g` of the envelope `env` cannot be decoded, if it cannot:
/// its discriminator is not recognised, or the first of its entries that is
/// not of the kind its discriminator calls for.
pub open spec fn group_fault(g: QueryBulkResultView, env: EnvelopeView) -> Option<
    DecodeErrorView,
> {
    match Discriminator::of_token(g.result_type) {
        None => Some(
            DecodeErrorView::UnrecognizedDiscriminator { tag: g.result_type, snapshot: env },
        ),
        Some(d) => match d.entry_kind() {
            None => None,
            Some(k) => match first_where(g.items, is_not(k)) {
                Some(j) => Some(g.items[j].mismatch(k)),
                None => None,
            },
        },
    }
}

/// The groups of `env` that cannot be decoded.
pub open spec fn faulty(env: EnvelopeView) -> spec_fn(QueryBulkResultView) -> bool {
    |g: QueryBulkResultView| group_fault(g, env) is Some
}

/// The entries of a group of series, typed.
pub open spec fn series_of(items: Seq<MediaCollectionView>) -> Seq<MediaView<Series>> {
    items.map_values(|c: MediaCollectionView| c->Series_0)
}

/// The entries of a group of movie listings, typed.
pub open spec fn movie_listings_of(items: Seq<MediaCollectionView>) -> Seq<
    MediaView<MovieListing>,
> {
    items.map_values(|c: MediaCollectionView| c->MovieListing_0)
}

/// The entries of a group of episodes, typed.
pub open spec fn episodes_of(items: Seq<MediaCollectionView>) -> Seq<MediaView<Episode>> {
    items.map_values(|c: MediaCollectionView| c->Episode_0)
}

/// The entries filed under `kind`: those of every group under it, group
/// after group in the order of the envelope, each group's entries in their
/// own order. No entry of such a group is left out.
pub open spec fn entries_under(groups: Seq<QueryBulkResultView>, kind: Discriminator) -> Seq<
    MediaCollectionView,
>
    decreases groups.len(),
{
    if groups.len() == 0 {
        Seq::empty()
    } else if tagged(kind)(groups.last()) {
        entries_under(groups.drop_last(), kind) + groups.last().items
    } else {
        entries_under(groups.drop_last(), kind)
    }
}

/// The total reported under `kind`: that of the last group under it, as it
/// came; none where there is no such group.
pub open spec fn total_under(groups: Seq<QueryBulkResultView>, kind: Discriminator) -> Option<
    u32,
> {
    match last_where(groups, tagged(kind)) {
        Some(j) => Some(groups[j].total),
        None => None,
    }
}

/// A bucket of `items` with the total reported for it; absent where no total
/// was reported, that is, where no group stands under its discriminator.
pub open spec fn bucket<V>(items: Seq<V>, total: Option<u32>) -> Option<BulkResultView<V>> {
    match total {
        Some(total) => Some(BulkResultView { items, total }),
        None => None,
    }
}

/// The bucket of top results: the entries of every group filed under
/// `top_results`, as they came, with the total of the last such group;
/// absent where there is no such group.
pub open spec fn top_results_bucket(groups: Seq<QueryBulkResultView>) -> Option<
    BulkResultView<MediaCollectionView>,
> {
    bucket(
        entries_under(groups, Discriminator::TopResults),
        total_under(groups, Discriminator::TopResults),
    )
}

/// The bucket of series: the entries of every group filed under `series`,
/// typed, with the total of the last such group; absent where there is no
/// such group.
pub open spec fn series_bucket(groups: Seq<QueryBulkResultView>) -> Option<
    BulkResultView<MediaView<Series>>,
> {
    bucket(
        series_of(entries_under(groups, Discriminator::Series)),
        total_under(groups, Discriminator::Series),
    )
}

/// The bucket of movie listings: the entries of every group filed under
/// `movie_listing`, typed, with the total of the last such group; absent
/// where there is no such group.
pub open spec fn movie_listing_bucket(groups: Seq<QueryBulkResultView>) -> Option<
    BulkResultView<MediaView<MovieListing>>,
> {
    bucket(
        movie_listings_of(entries_under(groups, Discriminator::MovieListing)),
        total_under(groups, Discriminator::MovieListing),
    )
}

/// The bucket of episodes: the entries of every group filed under
/// `episode`, typed, with the total of the last such group; absent where
/// there is no such group.
pub open spec fn episode_bucket(groups: Seq<QueryBulkResultView>) -> Option<
    BulkResultView<MediaView<Episode>>,
> {
    bucket(
        episodes_of(entries_under(groups, Discriminator::Episode)),
        total_under(groups, Discriminator::Episode),
    )
}

/// The buckets that the groups fill, each taken by itself.
pub open spec fn buckets(groups: Seq<QueryBulkResultView>) -> QueryResultsView {
    QueryResultsView {
        top_results: top_results_bucket(groups),
        series: series_bucket(groups),
        movie_listing: movie_listing_bucket(groups),
        episode: episode_bucket(groups),
    }
}

/// What decoding the envelope `env` yields: the fault of the first group
/// that cannot be decoded, or, where every group can, the buckets.
pub open spec fn decode(env: EnvelopeView) -> Result<QueryResultsView, DecodeErrorView> {
    match first_where(env.items, faulty(env)) {
        Some(i) => Err(group_fault(env.items[i], env)->0),
        None => Ok(buckets(env.items)),
    }
}

/// The model of the outcome of a decoding.
pub open spec fn decoded(r: Result<QueryResults, DecodeError>) -> Result<
    QueryResultsView,
    DecodeErrorView,
> {
    match r {
        Ok(q) => Ok(q@),
        Err(e) => Err(e@),
    }
}

/// Copies of the entries of a group as series, in their order. Fails on the
/// first entry that is not a series.
fn series_entries(items: &Vec<MediaCollection>) -> (r: Result<Vec<Media<Series>>, DecodeError>)
    ensures
        match first_where(items.deep_view(), is_not(MediaKind::Series)) {
            Some(j) => r is Err && r->Err_0@ == items.deep_view()[j].mismatch(MediaKind::Series),
            None => r is Ok && r->Ok_0.deep_view() == series_of(items.deep_view()),
        },
{
    let ghost all = items.deep_view();
    let ghost other = is_not(MediaKind::Series);
    let mut out: Vec<Media<Series>> = Vec::new();
    let mut i: usize = 0;
    while i < items.len()
        invariant
            i <= items.len(),
            all == items.deep_view(),
            other == is_not(MediaKind::Series),
            first_where(all.take(i as int), other) is None,
            out.deep_view() == series_of(all.take(i as int)),
        decreases items.len() - i,
    {
        proof {
            lemma_first_where(all.take(i as int), other);
            assert(all.take(i + 1).drop_last() == all.take(i as int));
            assert(all[i as int] == items[i as int]@);
        }
        match items[i].to_series() {
            Ok(m) => {
                let ghost before = out.deep_view();
                let ghost entry = m@;
                out.push(m);
                proof {
                    assert(all[i as int] == MediaCollectionView::Series(entry));
                    assert(out.deep_view() =~= before.push(entry));
                    assert(series_of(all.take(i + 1)) =~= series_of(all.take(i as int)).push(
                        entry,
                    ));
                }
            },
            Err(e) => {
                proof {
                    assert forall|j: int| 0 <= j < i implies !other(all[j]) by {
                        assert(all.take(i as int)[j] == all[j]);
                    }
                    lemma_first_where_is(all, other, i as int);
                }
                return Err(e);
            },
        }
        i += 1;
    }
    assert(all.take(i as int) == all);
    Ok(out)
}

/// Copies of the entries of a group as movie listings, in their order. Fails on the
/// first entry that is not a movie listing.
fn movie_listing_entries(items: &Vec<MediaCollection>) -> (r: Result<Vec<Media<MovieListing>>, DecodeError>)
    ensures
        match first_where(items.deep_view(), is_not(MediaKind::MovieListing)) {
            Some(j) => r is Err && r->Err_0@ == items.deep_view()[j].mismatch(MediaKind::MovieListing),
            None => r is Ok && r->Ok_0.deep_view() == movie_listings_of(items.deep_view()),
        },
{
    let ghost all = items.deep_view();
    let ghost other = is_not(MediaKind::MovieListing);
    let mut out: Vec<Media<MovieListing>> = Vec::new();
    let mut i: usize = 0;
    while i < items.len()
        invariant
            i <= items.len(),
            all == items.deep_view(),
            other == is_not(MediaKind::MovieListing),
            first_where(all.take(i as int), other) is None,
            out.deep_view() == movie_listings_of(all.take(i as int)),
        decreases items.len() - i,
    {
        proof {
            lemma_first_where(all.take(i as int), other);
            assert(all.take(i + 1).drop_last() == all.take(i as int));
            assert(all[i as int] == items[i as int]@);
        }
        match items[i].to_movie_listing() {
            Ok(m) => {
                let ghost before = out.deep_view();
                let ghost entry = m@;
                out.push(m);
                proof {
                    assert(all[i as int] == MediaCollectionView::MovieListing(entry));
                    assert(out.deep_view() =~= before.push(entry));
                    assert(movie_listings_of(all.take(i + 1)) =~= movie_listings_of(all.take(i as int)).push(
                        entry,
                    ));
                }
            },
            Err(e) => {
                proof {
                    assert forall|j: int| 0 <= j < i implies !other(all[j]) by {
                        assert(all.take(i as int)[j] == all[j]);
                    }
                    lemma_first_where_is(all, other, i as int);
                }
                return Err(e);
            },
        }
        i += 1;
    }
    assert(all.take(i as int) == all);
    Ok(out)
}

/// Copies of the entries of a group as episodes, in their order. Fails on the
/// first entry that is not an episode.
fn episode_entries(items: &Vec<MediaCollection>) -> (r: Result<Vec<Media<Episode>>, DecodeError>)
    ensures
        match first_where(items.deep_view(), is_not(MediaKind::Episode)) {
            Some(j) => r is Err && r->Err_0@ == items.deep_view()[j].mismatch(MediaKind::Episode),
            None => r is Ok && r->Ok_0.deep_view() == episodes_of(items.deep_view()),
        },
{
    let ghost all = items.deep_view();
    let ghost other = is_not(MediaKind::Episode);
    let mut out: Vec<Media<Episode>> = Vec::new();
    let mut i: usize = 0;
    while i < items.len()
        invariant
            i <= items.len(),
            all == items.deep_view(),
            other == is_not(MediaKind::Episode),
            first_where(all.take(i as int), other) is None,
            out.deep_view() == episodes_of(all.take(i as int)),
        decreases items.len() - i,
    {
        proof {
            lemma_first_where(all.take(i as int), other);
            assert(all.take(i + 1).drop_last() == all.take(i as int));
            assert(all[i as int] == items[i as int]@);
        }
        match items[i].to_episode() {
            Ok(m) => {
                let ghost before = out.deep_view();
                let ghost entry = m@;
                out.push(m);
                proof {
                    assert(all[i as int] == MediaCollectionView::Episode(entry));
                    assert(out.deep_view() =~= before.push(entry));
                    assert(episodes_of(all.take(i + 1)) =~= episodes_of(all.take(i as int)).push(
                        entry,
                    ));
                }
            },
            Err(e) => {
                proof {
                    assert forall|j: int| 0 <= j < i implies !other(all[j]) by {
                        assert(all.take(i as int)[j] == all[j]);
                    }
                    lemma_first_where_is(all, other, i as int);
                }
                return Err(e);
            },
        }
        i += 1;
    }
    assert(all.take(i as int) == all);
    Ok(out)
}

impl TryFromSpecImpl<BulkResult<QueryBulkResult>> for QueryResults {
    /// What `try_from` returns is stated of its model, by [`decode`]. Of the
    /// value itself nothing is claimed: it holds vectors that the decoding
    /// allocates.
    open spec fn obeys_try_from_spec() -> bool {
        false
    }

    open spec fn try_from_spec(v: BulkResult<QueryBulkResult>) -> Result<Self, DecodeError> {
        arbitrary()
    }
}

impl TryFrom<BulkResult<QueryBulkResult>> for QueryResults {
    type Error = DecodeError;

    /// Decodes a search result envelope into one bucket per discriminator.
    ///
    /// The groups are taken in the order of the envelope. The entries of a
    /// group filed under `top_results` go to its bucket as they are; those
    /// of a group filed under `series`, `movie_listing` or `episode` go to
    /// its bucket typed. Where several groups share a discriminator, their
    /// entries follow one another in the bucket, group after group, and the
    /// bucket carries the total that the last of them reports. Within a
    /// group the entries keep their order. A bucket for which the envelope
    /// holds no group stays absent.
    ///
    /// The first group with a discriminator that is not recognised, or with
    /// an entry that is not of the kind its discriminator calls for, fails
    /// the whole decoding: no bucket is handed out. An unrecognised
    /// discriminator is reported together with the envelope it came in.
    fn try_from(value: BulkResult<QueryBulkResult>) -> (r: Result<Self, DecodeError>)
        ensures
            decoded(r) == decode(value@),
    {
        let ghost env = value@;
        let ghost bad = faulty(env);
        let mut top_items: Vec<MediaCollection> = Vec::new();
        let mut top_total: Option<u32> = None;
        let mut series_items: Vec<Media<Series>> = Vec::new();
        let mut series_total: Option<u32> = None;
        let mut movie_listing_items: Vec<Media<MovieListing>> = Vec::new();
        let mut movie_listing_total: Option<u32> = None;
        let mut episode_items: Vec<Media<Episode>> = Vec::new();
        let mut episode_total: Option<u32> = None;
        let mut i: usize = 0;
        while i < value.items.len()
            invariant
                i <= value.items.len(),
                env == value@,
                bad == faulty(env),
                first_where(env.items.take(i as int), bad) is None,
                top_items.deep_view() == entries_under(
                    env.items.take(i as int),
                    Discriminator::TopResults,
                ),
                top_total == total_under(env.items.take(i as int), Discriminator::TopResults),
                series_items.deep_view() == series_of(
                    entries_under(env.items.take(i as int), Discriminator::Series),
                ),
                series_total == total_under(env.items.take(i as int), Discriminator::Series),
                movie_listing_items.deep_view() == movie_listings_of(
                    entries_under(env.items.take(i as int), Discriminator::MovieListing),
                ),
                movie_listing_total == total_under(
                    env.items.take(i as int),
                    Discriminator::MovieListing,
                ),
                episode_items.deep_view() == episodes_of(
                    entries_under(env.items.take(i as int), Discriminator::Episode),
                ),
                episode_total == total_under(env.items.take(i as int), Discriminator::Episode),
            decreases value.items.len() - i,
        {
            let group = &value.items[i];
            let ghost seen = env.items.take(i as int);
            proof {
                let next = env.items.take(i + 1);
                assert(next.drop_last() == seen);
                assert(next.last() == group@);
                lemma_first_where(seen, bad);
                lemma_last_where(seen, tagged(Discriminator::TopResults));
                lemma_last_where(seen, tagged(Discriminator::Series));
                lemma_last_where(seen, tagged(Discriminator::MovieListing));
                lemma_last_where(seen, tagged(Discriminator::Episode));
            }
            match Discriminator::from_token(group.result_type.as_str()) {
                Some(Discriminator::TopResults) => {
                    let ghost before = top_items.deep_view();
                    let mut entries = group.items.clone();
                    assert(entries.deep_view() == group@.items);
                    top_items.append(&mut entries);
                    top_total = Some(group.total);
                    assert(top_items.deep_view() == before + group@.items);
                },
                Some(Discriminator::Series) => {
                    match series_entries(&group.items) {
                        Ok(entries) => {
                            let ghost before = series_items.deep_view();
                            let ghost added = entries.deep_view();
                            let mut entries = entries;
                            series_items.append(&mut entries);
                            series_total = Some(group.total);
                            proof {
                                let under = entries_under(seen, Discriminator::Series);
                                assert(series_items.deep_view() == before + added);
                                assert(series_of(under + group@.items) == series_of(under)
                                    + series_of(group@.items));
                            }
                        },
                        Err(e) => {
                            proof {
                                lemma_first_fault(env, i as int);
                            }
                            return Err(e);
                        },
                    }
                },
                Some(Discriminator::MovieListing) => {
                    match movie_listing_entries(&group.items) {
                        Ok(entries) => {
                            let ghost before = movie_listing_items.deep_view();
                            let ghost added = entries.deep_view();
                            let mut entries = entries;
                            movie_listing_items.append(&mut entries);
                            movie_listing_total = Some(group.total);
                            proof {
                                let under = entries_under(seen, Discriminator::MovieListing);
                                assert(movie_listing_items.deep_view() == before + added);
                                assert(movie_listings_of(under + group@.items)
                                    == movie_listings_of(under) + movie_listings_of(
                                    group@.items,
                                ));
                            }
                        },
                        Err(e) => {
                            proof {
                                lemma_first_fault(env, i as int);
                            }
                            return Err(e);
                        },
                    }
                },
                Some(Discriminator::Episode) => {
                    match episode_entries(&group.items) {
                        Ok(entries) => {
                            let ghost before = episode_items.deep_view();
                            let ghost added = entries.deep_view();
                            let mut entries = entries;
                            episode_items.append(&mut entries);
                            episode_total = Some(group.total);
                            proof {
                                let under = entries_under(seen, Discriminator::Episode);
                                assert(episode_items.deep_view() == before + added);
                                assert(episodes_of(under + group@.items) == episodes_of(under)
                                    + episodes_of(group@.items));
                            }
                        },
                        Err(e) => {
                            proof {
                                lemma_first_fault(env, i as int);
                            }
                            return Err(e);
                        },
                    }
                },
                None => {
                    let tag = group.result_type.clone();
                    proof {
                        lemma_first_fault(env, i as int);
                    }
                    return Err(DecodeError::UnrecognizedDiscriminator { tag, snapshot: value });
                },
            }
            i += 1;
        }
        assert(env.items.take(i as int) == env.items);
        Ok(
            QueryResults {
                top_results: filled(top_items, top_total),
                series: filled(series_items, series_total),
                movie_listing: filled(movie_listing_items, movie_listing_total),
                episode: filled(episode_items, episode_total),
            },
        )
    }
}

/// The bucket of `items` with the total reported for it; absent where no
/// total was reported.
fn filled<T: DeepView>(items: Vec<T>, total: Option<u32>) -> (r: Option<BulkResult<T>>)
    ensures
        r.deep_view() == bucket(items.deep_view(), total),
{
    match total {
        Some(total) => Some(BulkResult { items, total }),
        None => None,
    }
}

/// A group that cannot be decoded, before which every group can, is the one
/// whose fault the decoding reports.
pub proof fn lemma_first_fault(env: EnvelopeView, i: int)
    requires
        0 <= i < env.items.len(),
        group_fault(env.items[i], env) is Some,
        first_where(env.items.take(i), faulty(env)) is None,
    ensures
        decode(env) == Err::<QueryResultsView, DecodeErrorView>(group_fault(env.items[i], env)->0),
{
    let bad = faulty(env);
    lemma_first_where(env.items.take(i), bad);
    assert forall|j: int| 0 <= j < i implies !bad(env.items[j]) by {
        assert(env.items.take(i)[j] == env.items[j]);
    }
    lemma_first_where_is(env.items, bad, i);
}

/// Decoding succeeds exactly where every group can be decoded: one group
/// that cannot fails the whole envelope, whatever the others hold.
pub proof fn lemma_decode_fails_fast(env: EnvelopeView)
    ensures
        decode(env) is Ok <==> forall|i: int|
            0 <= i < env.items.len() ==> group_fault(#[trigger] env.items[i], env) is None,
{
    let bad = faulty(env);
    lemma_first_where(env.items, bad);
    if decode(env) is Ok {
        assert forall|i: int| 0 <= i < env.items.len() implies group_fault(
            #[trigger] env.items[i],
            env,
        ) is None by {
            assert(!bad(env.items[i]));
        }
    } else {
        let i = first_where(env.items, bad)->0;
        assert(bad(env.items[i]));
    }
}

/// An envelope that holds a group under a discriminator that is not
/// recognised does not decode, whatever else it holds; and where no group
/// before that one is at fault, the error names that discriminator and
/// carries the envelope.
pub proof fn lemma_unrecognized_discriminator_fails(env: EnvelopeView, i: int)
    requires
        0 <= i < env.items.len(),
        Discriminator::of_token(env.items[i].result_type) is None,
    ensures
        decode(env) is Err,
        (forall|j: int| 0 <= j < i ==> group_fault(#[trigger] env.items[j], env) is None)
            ==> decode(env) == Err::<QueryResultsView, DecodeErrorView>(
            DecodeErrorView::UnrecognizedDiscriminator {
                tag: env.items[i].result_type,
                snapshot: env,
            },
        ),
{
    let bad = faulty(env);
    assert(bad(env.items[i]));
    lemma_first_where(env.items, bad);
    if forall|j: int| 0 <= j < i ==> group_fault(#[trigger] env.items[j], env) is None {
        assert forall|j: int| 0 <= j < i implies !bad(env.items[j]) by {
            assert(group_fault(env.items[j], env) is None);
        }
        lemma_first_where_is(env.items, bad, i);
    }
}

/// A group whose entries are all of the kind that its discriminator calls
/// for can be decoded; so can every group of top results.
pub proof fn lemma_well_shaped_group(g: QueryBulkResultView, env: EnvelopeView, d: Discriminator)
    requires
        Discriminator::of_token(g.result_type) == Some(d),
        d.entry_kind() matches Some(k) ==> forall|j: int|
            0 <= j < g.items.len() ==> (#[trigger] g.items[j]).kind() == k,
    ensures
        group_fault(g, env) is None,
{
    if let Some(k) = d.entry_kind() {
        let other = is_not(k);
        assert forall|j: int| 0 <= j < g.items.len() implies !other(g.items[j]) by {
            assert(g.items[j].kind() == k);
        }
        lemma_where_none(g.items, other);
    }
}

/// A group by itself files its entries under its own discriminator and
/// nothing under any other.
pub proof fn lemma_entries_of_one_group(g: QueryBulkResultView, kind: Discriminator)
    ensures
        entries_under(seq![g], kind) == if tagged(kind)(g) {
            g.items
        } else {
            Seq::empty()
        },
{
    reveal_with_fuel(entries_under, 2);
    assert(seq![g].drop_last() =~= Seq::<QueryBulkResultView>::empty());
    assert(seq![g].last() == g);
    assert(Seq::<MediaCollectionView>::empty() + g.items =~= g.items);
}

/// What stands under a discriminator in an envelope is what stands under
/// it in the front of the envelope, followed by what stands under it in the
/// rest: entries are filed in the order of their groups, and none is left
/// out.
pub proof fn lemma_entries_follow_the_groups(
    front: Seq<QueryBulkResultView>,
    rest: Seq<QueryBulkResultView>,
    kind: Discriminator,
)
    ensures
        entries_under(front + rest, kind) == entries_under(front, kind) + entries_under(
            rest,
            kind,
        ),
    decreases rest.len(),
{
    if rest.len() == 0 {
        assert(front + rest =~= front);
        assert(entries_under(front, kind) + entries_under(rest, kind) =~= entries_under(
            front,
            kind,
        ));
    } else {
        assert((front + rest).drop_last() =~= front + rest.drop_last());
        assert((front + rest).last() == rest.last());
        lemma_entries_follow_the_groups(front, rest.drop_last(), kind);
        assert(entries_under(front + rest, kind) =~= entries_under(front, kind) + entries_under(
            rest,
            kind,
        ));
    }
}

/// Where no group stands under a discriminator, nothing is filed under it.
pub proof fn lemma_no_group_no_entries(groups: Seq<QueryBulkResultView>, kind: Discriminator)
    requires
        forall|i: int| 0 <= i < groups.len() ==> !tagged(kind)(#[trigger] groups[i]),
    ensures
        entries_under(groups, kind) == Seq::<MediaCollectionView>::empty(),
        total_under(groups, kind) is None,
    decreases groups.len(),
{
    lemma_where_none(groups, tagged(kind));
    if groups.len() > 0 {
        let front = groups.drop_last();
        assert(!tagged(kind)(groups[groups.len() - 1]));
        assert forall|i: int| 0 <= i < front.len() implies !tagged(kind)(
            #[trigger] front[i],
        ) by {
            assert(front[i] == groups[i]);
        }
        lemma_no_group_no_entries(front, kind);
    }
}

/// No entry of a group under a discriminator is dropped or moved: the
/// entries of the group at `i` stand under the discriminator in one piece,
/// in their order, right after everything filed by the groups before it.
pub proof fn lemma_no_entry_is_dropped(
    groups: Seq<QueryBulkResultView>,
    kind: Discriminator,
    i: int,
)
    requires
        0 <= i < groups.len(),
        tagged(kind)(groups[i]),
    ensures
        ({
            let before = entries_under(groups.take(i), kind).len() as int;
            &&& before + groups[i].items.len() <= entries_under(groups, kind).len()
            &&& entries_under(groups, kind).subrange(before, before + groups[i].items.len())
                == groups[i].items
        }),
{
    let front = groups.take(i);
    let one = seq![groups[i]];
    let rest = groups.skip(i + 1);
    assert(groups =~= front + one + rest);
    lemma_entries_follow_the_groups(front + one, rest, kind);
    lemma_entries_follow_the_groups(front, one, kind);
    lemma_entries_of_one_group(groups[i], kind);
    let before = entries_under(front, kind).len() as int;
    assert(entries_under(groups, kind).subrange(before, before + groups[i].items.len())
        =~= groups[i].items);
}

/// Where exactly one group stands under a discriminator, what is filed
/// under it is that group's entries, with that group's total.
pub proof fn lemma_only_group(groups: Seq<QueryBulkResultView>, kind: Discriminator, i: int)
    requires
        0 <= i < groups.len(),
        tagged(kind)(groups[i]),
        forall|j: int| 0 <= j < groups.len() && j != i ==> !tagged(kind)(#[trigger] groups[j]),
    ensures
        entries_under(groups, kind) == groups[i].items,
        total_under(groups, kind) == Some(groups[i].total),
{
    let front = groups.take(i);
    let one = seq![groups[i]];
    let rest = groups.skip(i + 1);
    assert(groups =~= front + one + rest);
    lemma_entries_follow_the_groups(front + one, rest, kind);
    lemma_entries_follow_the_groups(front, one, kind);
    lemma_entries_of_one_group(groups[i], kind);
    assert forall|j: int| 0 <= j < front.len() implies !tagged(kind)(#[trigger] front[j]) by {
        assert(front[j] == groups[j]);
    }
    assert forall|j: int| 0 <= j < rest.len() implies !tagged(kind)(#[trigger] rest[j]) by {
        assert(rest[j] == groups[i + 1 + j]);
    }
    lemma_no_group_no_entries(front, kind);
    lemma_no_group_no_entries(rest, kind);
    assert(entries_under(groups, kind) =~= groups[i].items);
    lemma_last_where_is(groups, tagged(kind), i);
}

/// Two groups under one discriminator both reach its bucket: the entries of
/// the first, then those of the second, with the total of the second.
pub proof fn lemma_two_groups_share_a_bucket(
    first: QueryBulkResultView,
    second: QueryBulkResultView,
    kind: Discriminator,
)
    requires
        tagged(kind)(first),
        tagged(kind)(second),
    ensures
        entries_under(seq![first, second], kind) == first.items + second.items,
        total_under(seq![first, second], kind) == Some(second.total),
{
    assert(seq![first, second] =~= seq![first] + seq![second]);
    lemma_entries_follow_the_groups(seq![first], seq![second], kind);
    lemma_entries_of_one_group(first, kind);
    lemma_entries_of_one_group(second, kind);
    lemma_last_where_is(seq![first, second], tagged(kind), 1);
}

/// An envelope of two groups of series, all of whose entries are series,
/// decodes to one bucket: the series of the first group followed by those of
/// the second, under the total of the second. The other buckets are absent.
pub proof fn lemma_two_groups_of_series(env: EnvelopeView)
    requires
        env.items.len() == 2,
        tagged(Discriminator::Series)(env.items[0]),
        tagged(Discriminator::Series)(env.items[1]),
        forall|j: int|
            0 <= j < env.items[0].items.len() ==> (#[trigger] env.items[0].items[j]) is Series,
        forall|j: int|
            0 <= j < env.items[1].items.len() ==> (#[trigger] env.items[1].items[j]) is Series,
    ensures
        decode(env) == Ok::<QueryResultsView, DecodeErrorView>(
            QueryResultsView {
                top_results: None,
                series: Some(
                    BulkResultView {
                        items: series_of(env.items[0].items) + series_of(env.items[1].items),
                        total: env.items[1].total,
                    },
                ),
                movie_listing: None,
                episode: None,
            },
        ),
{
    let groups = env.items;
    assert(groups =~= seq![groups[0], groups[1]]);
    lemma_well_shaped_group(groups[0], env, Discriminator::Series);
    lemma_well_shaped_group(groups[1], env, Discriminator::Series);
    let bad = faulty(env);
    assert forall|i: int| 0 <= i < groups.len() implies !bad(groups[i]) by {
        assert(i == 0 || i == 1);
    }
    lemma_where_none(groups, bad);
    lemma_two_groups_share_a_bucket(groups[0], groups[1], Discriminator::Series);
    lemma_no_group_no_entries(groups, Discriminator::TopResults);
    lemma_no_group_no_entries(groups, Discriminator::MovieListing);
    lemma_no_group_no_entries(groups, Discriminator::Episode);
    assert(series_of(groups[0].items + groups[1].items) =~= series_of(groups[0].items)
        + series_of(groups[1].items));
}

/// A bucket is present exactly where the envelope holds a group under its
/// discriminator.
pub proof fn lemma_bucket_presence(groups: Seq<QueryBulkResultView>)
    ensures
        buckets(groups).top_results is Some <==> exists|i: int|
            0 <= i < groups.len() && tagged(Discriminator::TopResults)(#[trigger] groups[i]),
        buckets(groups).series is Some <==> exists|i: int|
            0 <= i < groups.len() && tagged(Discriminator::Series)(#[trigger] groups[i]),
        buckets(groups).movie_listing is Some <==> exists|i: int|
            0 <= i < groups.len() && tagged(Discriminator::MovieListing)(#[trigger] groups[i]),
        buckets(groups).episode is Some <==> exists|i: int|
            0 <= i < groups.len() && tagged(Discriminator::Episode)(#[trigger] groups[i]),
{
    lemma_last_where(groups, tagged(Discriminator::TopResults));
    lemma_last_where(groups, tagged(Discriminator::Series));
    lemma_last_where(groups, tagged(Discriminator::MovieListing));
    lemma_last_where(groups, tagged(Discriminator::Episode));
}

/// An envelope of four groups, one under each discriminator and each with
/// entries of the kind called for, decodes to four buckets. Each bucket
/// holds the entries of its own group, as many as the group has and in their
/// order, and the total that the group reports.
pub proof fn lemma_one_group_per_discriminator(
    env: EnvelopeView,
    top_results: int,
    series: int,
    movie_listing: int,
    episode: int,
)
    requires
        env.items.len() == 4,
        0 <= top_results < 4,
        0 <= series < 4,
        0 <= movie_listing < 4,
        0 <= episode < 4,
        tagged(Discriminator::TopResults)(env.items[top_results]),
        tagged(Discriminator::Series)(env.items[series]),
        tagged(Discriminator::MovieListing)(env.items[movie_listing]),
        tagged(Discriminator::Episode)(env.items[episode]),
        forall|j: int|
            0 <= j < env.items[series].items.len() ==> (#[trigger] env.items[series].items[j])
                is Series,
        forall|j: int|
            0 <= j < env.items[movie_listing].items.len() ==> (
            #[trigger] env.items[movie_listing].items[j]) is MovieListing,
        forall|j: int|
            0 <= j < env.items[episode].items.len() ==> (#[trigger] env.items[episode].items[j])
                is Episode,
    ensures
        decode(env) == Ok::<QueryResultsView, DecodeErrorView>(
            QueryResultsView {
                top_results: Some(
                    BulkResultView {
                        items: env.items[top_results].items,
                        total: env.items[top_results].total,
                    },
                ),
                series: Some(
                    BulkResultView {
                        items: series_of(env.items[series].items),
                        total: env.items[series].total,
                    },
                ),
                movie_listing: Some(
                    BulkResultView {
                        items: movie_listings_of(env.items[movie_listing].items),
                        total: env.items[movie_listing].total,
                    },
                ),
                episode: Some(
                    BulkResultView {
                        items: episodes_of(env.items[episode].items),
                        total: env.items[episode].total,
                    },
                ),
            },
        ),
        series_of(env.items[series].items).len() == env.items[series].items.len(),
        movie_listings_of(env.items[movie_listing].items).len()
            == env.items[movie_listing].items.len(),
        episodes_of(env.items[episode].items).len() == env.items[episode].items.len(),
        forall|j: int|
            0 <= j < env.items[series].items.len() ==> env.items[series].items[j]
                == MediaCollectionView::Series(#[trigger] series_of(env.items[series].items)[j]),
        forall|j: int|
            0 <= j < env.items[movie_listing].items.len() ==> env.items[movie_listing].items[j]
                == MediaCollectionView::MovieListing(
                #[trigger] movie_listings_of(env.items[movie_listing].items)[j],
            ),
        forall|j: int|
            0 <= j < env.items[episode].items.len() ==> env.items[episode].items[j]
                == MediaCollectionView::Episode(
                #[trigger] episodes_of(env.items[episode].items)[j],
            ),
{
    let groups = env.items;
    lemma_well_shaped_group(groups[top_results], env, Discriminator::TopResults);
    lemma_well_shaped_group(groups[series], env, Discriminator::Series);
    lemma_well_shaped_group(groups[movie_listing], env, Discriminator::MovieListing);
    lemma_well_shaped_group(groups[episode], env, Discriminator::Episode);
    let bad = faulty(env);
    assert forall|i: int| 0 <= i < groups.len() implies !bad(groups[i]) by {
        assert(i == top_results || i == series || i == movie_listing || i == episode);
    }
    lemma_where_none(groups, bad);
    lemma_only_group(groups, Discriminator::TopResults, top_results);
    lemma_only_group(groups, Discriminator::Series, series);
    lemma_only_group(groups, Discriminator::MovieListing, movie_listing);
    lemma_only_group(groups, Discriminator::Episode, episode);
}

/// The kinds of entry that a search can be narrowed to.
#[derive(Clone, Copy, Debug, PartialEq, Eq, Structural)]
pub enum QueryType {
    Series,
    MovieListing,
    Episode,
}

impl QueryType {
    /// The token that stands for this kind in a query.
    pub open spec fn token(self) -> Seq<char> {
        match self {
            QueryType::Series => "series"@,
            QueryType::MovieListing => "movie_listing"@,
            QueryType::Episode => "episode"@,
        }
    }

    /// The token that stands for this kind in a query.
    pub fn as_str(self) -> (r: &'static str)
        ensures
            r@ == self.token(),
    {
        match self {
            QueryType::Series => "series",
            QueryType::MovieListing => "movie_listing",
            QueryType::Episode => "episode",
        }
    }
}

/// The options of a search. A field that is `None` is unset.
///
/// Schema, in the order in which the fields are written:
///
/// | field         | key    | written as | unset    |
/// |---------------|--------|------------|----------|
/// | `limit`       | `n`    | decimal    | `20`     |
/// | `result_type` | `type` | token      | left out |
#[derive(Clone, Debug, PartialEq, Eq)]
pub struct QueryOptions {
    /// The number of entries to return.
    pub limit: Option<u32>,
    /// The kind of entry to return.
    pub result_type: Option<QueryType>,
}

/// Mathematical model of a [`QueryOptions`].
pub ghost struct QueryOptionsView {
    pub limit: Option<u32>,
    pub result_type: Option<QueryType>,
}

impl View for QueryOptions {
    type V = QueryOptionsView;

    open spec fn view(&self) -> QueryOptionsView {
        QueryOptionsView { limit: self.limit, result_type: self.result_type }
    }
}

impl QueryOptionsView {
    /// The options with every field unset.
    pub open spec fn unset() -> QueryOptionsView {
        QueryOptionsView { limit: None, result_type: None }
    }

    /// Whether every field is set.
    pub open spec fn all_set(self) -> bool {
        self.limit is Some && self.result_type is Some
    }

    /// The number of entries that the search is asked for: the one set, or
    /// the default.
    pub open spec fn effective_limit(self) -> u32 {
        match self.limit {
            Some(limit) => limit,
            None => DEFAULT_LIMIT,
        }
    }

    /// The fields in the order of the schema, each with its key and, where it
    /// has one, its value as it is written.
    pub open spec fn fields(self) -> Seq<Field> {
        seq![
            ("n"@, Some(decimal(self.effective_limit() as nat))),
            (
                "type"@,
                match self.result_type {
                    Some(t) => Some(t.token()),
                    None => None,
                },
            ),
        ]
    }

    /// The pairs of the query string that these options give.
    pub open spec fn query_pairs(self) -> Seq<Pair> {
        emit(self.fields())
    }
}

impl Default for QueryOptions {
    /// The options with every field unset.
    fn default() -> (r: Self)
        ensures
            r@ == QueryOptionsView::unset(),
    {
        QueryOptions { limit: None, result_type: None }
    }
}

impl QueryOptions {
    /// Sets the number of entries to return.
    pub fn limit(self, value: u32) -> (r: Self)
        ensures
            r@ == (QueryOptionsView { limit: Some(value), ..self@ }),
    {
        QueryOptions { limit: Some(value), ..self }
    }

    /// Sets the kind of entry to return.
    pub fn result_type(self, value: QueryType) -> (r: Self)
        ensures
            r@ == (QueryOptionsView { result_type: Some(value), ..self@ }),
    {
        QueryOptions { result_type: Some(value), ..self }
    }

    /// Writes the options as the pairs of a query string: one pair for each
    /// field that is set or has a default, in the order of the schema.
    pub fn into_query(self) -> (pairs: Vec<(String, String)>)
        ensures
            pairs.deep_view() == self@.query_pairs(),
    {
        let limit = match self.limit {
            Some(limit) => limit,
            None => DEFAULT_LIMIT,
        };
        let result_type = match self.result_type {
            Some(t) => Some(String::from_str(t.as_str())),
            None => None,
        };
        let ghost model = self@;
        let fields = vec![("n", Some(u32_to_decimal(limit))), ("type", result_type)];
        assert(fields.deep_view() =~= model.fields());
        emit_pairs(fields)
    }
}

/// The pairs of the query string of a search for `query`: those of the
/// options, then the text searched for under the key `q`.
pub open spec fn search_pairs(query: Seq<char>, options: QueryOptionsView) -> Seq<Pair> {
    options.query_pairs().push(("q"@, query))
}

/// Writes a search for `query` under `options` as the pairs of a query
/// string.
pub fn search_query(query: &str, options: QueryOptions) -> (pairs: Vec<(String, String)>)
    ensures
        pairs.deep_view() == search_pairs(query@, options@),
{
    let mut pairs = options.into_query();
    let ghost before = pairs.deep_view();
    pairs.push((String::from_str("q"), String::from_str(query)));
    assert(pairs.deep_view() =~= before.push(("q"@, query@)));
    pairs
}

/// Options with no field set are written as exactly the field that has a
/// default, with its default.
pub proof fn lemma_unset_options_give_defaults(options: QueryOptionsView)
    requires
        options == QueryOptionsView::unset(),
    ensures
        options.query_pairs() == seq![("n"@, "20"@)],
{
    reveal_with_fuel(emit, 3);
    reveal_with_fuel(decimal, 2);
    reveal_strlit("20");
    assert(decimal(20) =~= "20"@);
    assert(options.query_pairs() =~= seq![("n"@, "20"@)]);
}

/// Options with every field set are written as one pair for each field, in
/// the order of the schema: none is left out.
pub proof fn lemma_set_options_give_every_field(options: QueryOptionsView)
    requires
        options.all_set(),
    ensures
        options.query_pairs() == seq![
            ("n"@, decimal((options.limit->0) as nat)),
            ("type"@, (options.result_type->0).token()),
        ],
{
    reveal_with_fuel(emit, 3);
    assert(options.query_pairs() =~= seq![
        ("n"@, decimal((options.limit->0) as nat)),
        ("type"@, (options.result_type->0).token()),
    ]);
}

/// Writing the same options twice gives the same pairs in the same order:
/// whatever two calls of `into_query` return for options with one model
/// has one model.
pub proof fn lemma_query_is_repeatable(
    first: QueryOptions,
    second: QueryOptions,
    first_pairs: Vec<(String, String)>,
    second_pairs: Vec<(String, String)>,
)
    requires
        first@ == second@,
        call_ensures(QueryOptions::into_query, (first,), first_pairs),
        call_ensures(QueryOptions::into_query, (second,), second_pairs),
    ensures
        first_pairs.deep_view() == second_pairs.deep_view(),
{
}

/// Decoding the same envelope twice gives the same buckets or the same
/// error: whatever two calls of `try_from` return for envelopes with one
/// model has one model.
pub proof fn lemma_decoding_is_repeatable(
    first: BulkResult<QueryBulkResult>,
    second: BulkResult<QueryBulkResult>,
    first_outcome: Result<QueryResults, DecodeError>,
    second_outcome: Result<QueryResults, DecodeError>,
)
    requires
        first@ == second@,
        call_ensures(QueryResults::try_from, (first,), first_outcome),
        call_ensures(QueryResults::try_from, (second,), second_outcome),
    ensures
        decoded(first_outcome) == decoded(second_outcome),
{
}

} // verus!
