use crunchyroll_rs::common::BulkResult;
use crunchyroll_rs::error::DecodeError;
use crunchyroll_rs::media::{
    Episode, Media, MediaCollection, MediaKind, Movie, MovieListing, Season, Series,
};
use crunchyroll_rs::search::{Discriminator, QueryBulkResult, QueryResults};

fn entry<M>(id: &str, title: &str, metadata: M) -> Media<M> {
    Media {
        id: id.to_string(),
        title: title.to_string(),
        description: format!("about {}", title),
        metadata,
    }
}

fn a_series(id: &str) -> Media<Series> {
    entry(id, "Some Series", Series { season_count: 2, episode_count: 24, is_simulcast: true })
}

fn a_season(id: &str) -> Media<Season> {
    entry(id, "Season Two", Season { season_number: 2, episode_count: 12 })
}

fn an_episode(id: &str) -> Media<Episode> {
    entry(id, "The Pilot", Episode { season_number: 1, episode_number: 1, duration_ms: 1_420_000 })
}

fn a_movie_listing(id: &str) -> Media<MovieListing> {
    entry(id, "The Movie", MovieListing { release_year: 2019, is_dubbed: false, is_subbed: true })
}

fn a_movie(id: &str) -> Media<Movie> {
    entry(id, "The Movie, Part One", Movie { duration_ms: 5_400_000 })
}

fn group(tag: &str, items: Vec<MediaCollection>, total: u32) -> QueryBulkResult {
    QueryBulkResult { result_type: tag.to_string(), items, total }
}

fn envelope(groups: Vec<QueryBulkResult>) -> BulkResult<QueryBulkResult> {
    let total = groups.len() as u32;
    BulkResult { items: groups, total }
}

#[test]
fn one_group_per_discriminator_fills_four_buckets() {
    let decoded = QueryResults::try_from(envelope(vec![
        group("top_results", vec![MediaCollection::Movie(a_movie("M1"))], 11),
        group("series", vec![MediaCollection::Series(a_series("S1"))], 22),
        group("movie_listing", vec![MediaCollection::MovieListing(a_movie_listing("L1"))], 33),
        group("episode", vec![MediaCollection::Episode(an_episode("E1"))], 44),
    ]))
    .unwrap();

    assert_eq!(
        decoded.top_results,
        Some(BulkResult { items: vec![MediaCollection::Movie(a_movie("M1"))], total: 11 })
    );
    assert_eq!(decoded.series, Some(BulkResult { items: vec![a_series("S1")], total: 22 }));
    assert_eq!(
        decoded.movie_listing,
        Some(BulkResult { items: vec![a_movie_listing("L1")], total: 33 })
    );
    assert_eq!(decoded.episode, Some(BulkResult { items: vec![an_episode("E1")], total: 44 }));
}

#[test]
fn order_of_the_groups_does_not_matter_for_distinct_discriminators() {
    let decoded = QueryResults::try_from(envelope(vec![
        group("episode", vec![MediaCollection::Episode(an_episode("E1"))], 4),
        group("movie_listing", vec![MediaCollection::MovieListing(a_movie_listing("L1"))], 3),
        group("series", vec![MediaCollection::Series(a_series("S1"))], 2),
        group("top_results", vec![MediaCollection::Series(a_series("S1"))], 1),
    ]))
    .unwrap();

    assert_eq!(decoded.episode.unwrap().total, 4);
    assert_eq!(decoded.movie_listing.unwrap().total, 3);
    assert_eq!(decoded.series.unwrap().total, 2);
    assert_eq!(decoded.top_results.unwrap().total, 1);
}

#[test]
fn unknown_discriminator_fails_the_whole_envelope() {
    let groups = || {
        vec![
            group("series", vec![MediaCollection::Series(a_series("S1"))], 1),
            group("unknown_type", vec![MediaCollection::Series(a_series("S2"))], 1),
        ]
    };
    let outcome = QueryResults::try_from(envelope(groups()));

    assert_eq!(
        outcome,
        Err(DecodeError::UnrecognizedDiscriminator {
            tag: "unknown_type".to_string(),
            snapshot: envelope(groups()),
        })
    );
}

#[test]
fn single_episode_group_fills_only_the_episode_bucket() {
    let decoded = QueryResults::try_from(BulkResult {
        items: vec![group("episode", vec![MediaCollection::Episode(an_episode("GRDKJZ81Y"))], 1)],
        total: 1,
    })
    .unwrap();

    let episodes = decoded.episode.unwrap();
    assert_eq!(episodes.items, vec![an_episode("GRDKJZ81Y")]);
    assert_eq!(episodes.total, 1);
    assert_eq!(decoded.series, None);
    assert_eq!(decoded.movie_listing, None);
    assert_eq!(decoded.top_results, None);
}

#[test]
fn entry_of_another_kind_is_a_shape_mismatch() {
    let outcome = QueryResults::try_from(envelope(vec![group(
        "series",
        vec![MediaCollection::Series(a_series("S1")), MediaCollection::Episode(an_episode("E1"))],
        2,
    )]));
    assert_eq!(
        outcome,
        Err(DecodeError::ShapeMismatch { expected: MediaKind::Series, found: MediaKind::Episode })
    );

    let outcome = QueryResults::try_from(envelope(vec![group(
        "movie_listing",
        vec![MediaCollection::Movie(a_movie("M1"))],
        1,
    )]));
    assert_eq!(
        outcome,
        Err(DecodeError::ShapeMismatch {
            expected: MediaKind::MovieListing,
            found: MediaKind::Movie,
        })
    );

    let outcome = QueryResults::try_from(envelope(vec![group(
        "episode",
        vec![MediaCollection::Season(a_season("N1"))],
        1,
    )]));
    assert_eq!(
        outcome,
        Err(DecodeError::ShapeMismatch { expected: MediaKind::Episode, found: MediaKind::Season })
    );
}

#[test]
fn first_mismatch_within_a_group_is_the_one_reported() {
    let outcome = QueryResults::try_from(envelope(vec![group(
        "series",
        vec![
            MediaCollection::Series(a_series("S1")),
            MediaCollection::Movie(a_movie("M1")),
            MediaCollection::Season(a_season("N1")),
        ],
        3,
    )]));
    assert_eq!(
        outcome,
        Err(DecodeError::ShapeMismatch { expected: MediaKind::Series, found: MediaKind::Movie })
    );
}

#[test]
fn first_group_at_fault_is_the_one_reported() {
    let mismatch_first = QueryResults::try_from(envelope(vec![
        group("episode", vec![MediaCollection::Series(a_series("S1"))], 1),
        group("mystery", vec![], 0),
    ]));
    assert_eq!(
        mismatch_first,
        Err(DecodeError::ShapeMismatch { expected: MediaKind::Episode, found: MediaKind::Series })
    );

    let unknown_first = QueryResults::try_from(envelope(vec![
        group("mystery", vec![], 0),
        group("episode", vec![MediaCollection::Series(a_series("S1"))], 1),
    ]));
    assert!(matches!(
        unknown_first,
        Err(DecodeError::UnrecognizedDiscriminator { ref tag, .. }) if tag == "mystery"
    ));
}

#[test]
fn groups_under_the_same_discriminator_are_joined_in_envelope_order() {
    let decoded = QueryResults::try_from(envelope(vec![
        group(
            "series",
            vec![
                MediaCollection::Series(a_series("A1")),
                MediaCollection::Series(a_series("A2")),
            ],
            5,
        ),
        group("episode", vec![], 0),
        group("series", vec![MediaCollection::Series(a_series("B1"))], 9),
    ]))
    .unwrap();

    assert_eq!(
        decoded.series,
        Some(BulkResult {
            items: vec![a_series("A1"), a_series("A2"), a_series("B1")],
            total: 9,
        })
    );
    assert_eq!(decoded.episode, Some(BulkResult { items: vec![], total: 0 }));
    assert_eq!(decoded.top_results, None);
    assert_eq!(decoded.movie_listing, None);
}

#[test]
fn every_bucket_joins_the_groups_under_its_discriminator() {
    let decoded = QueryResults::try_from(envelope(vec![
        group("top_results", vec![MediaCollection::Movie(a_movie("M1"))], 1),
        group("episode", vec![MediaCollection::Episode(an_episode("E1"))], 2),
        group("movie_listing", vec![MediaCollection::MovieListing(a_movie_listing("L1"))], 3),
        group("top_results", vec![MediaCollection::Season(a_season("N1"))], 4),
        group("movie_listing", vec![MediaCollection::MovieListing(a_movie_listing("L2"))], 5),
        group("episode", vec![MediaCollection::Episode(an_episode("E2"))], 6),
    ]))
    .unwrap();

    assert_eq!(
        decoded.top_results,
        Some(BulkResult {
            items: vec![
                MediaCollection::Movie(a_movie("M1")),
                MediaCollection::Season(a_season("N1")),
            ],
            total: 4,
        })
    );
    assert_eq!(
        decoded.movie_listing,
        Some(BulkResult { items: vec![a_movie_listing("L1"), a_movie_listing("L2")], total: 5 })
    );
    assert_eq!(
        decoded.episode,
        Some(BulkResult { items: vec![an_episode("E1"), an_episode("E2")], total: 6 })
    );
    assert_eq!(decoded.series, None);
}

#[test]
fn an_empty_later_group_drops_nothing_and_gives_the_total() {
    let decoded = QueryResults::try_from(envelope(vec![
        group("series", vec![MediaCollection::Series(a_series("S1"))], 7),
        group("series", vec![], 0),
    ]))
    .unwrap();

    assert_eq!(decoded.series, Some(BulkResult { items: vec![a_series("S1")], total: 0 }));
}

#[test]
fn fault_in_an_earlier_group_of_the_same_discriminator_fails_the_envelope() {
    let outcome = QueryResults::try_from(envelope(vec![
        group("series", vec![MediaCollection::Episode(an_episode("E1"))], 1),
        group("series", vec![MediaCollection::Series(a_series("S1"))], 1),
    ]));
    assert_eq!(
        outcome,
        Err(DecodeError::ShapeMismatch { expected: MediaKind::Series, found: MediaKind::Episode })
    );
}

#[test]
fn empty_envelope_fills_no_bucket() {
    let decoded = QueryResults::try_from(BulkResult { items: vec![], total: 0 }).unwrap();
    assert_eq!(
        decoded,
        QueryResults { top_results: None, series: None, movie_listing: None, episode: None }
    );
}

#[test]
fn empty_group_fills_its_bucket_with_no_entries() {
    let decoded = QueryResults::try_from(envelope(vec![group("movie_listing", vec![], 0)])).unwrap();
    assert_eq!(decoded.movie_listing, Some(BulkResult { items: vec![], total: 0 }));
    assert_eq!(decoded.series, None);
}

#[test]
fn total_is_passed_through_and_not_counted() {
    let decoded = QueryResults::try_from(envelope(vec![
        group("series", vec![MediaCollection::Series(a_series("S1"))], 4_000_000_000),
        group("top_results", vec![], 17),
    ]))
    .unwrap();

    let series = decoded.series.unwrap();
    assert_eq!(series.items.len(), 1);
    assert_eq!(series.total, 4_000_000_000);
    let top = decoded.top_results.unwrap();
    assert_eq!(top.items.len(), 0);
    assert_eq!(top.total, 17);
}

#[test]
fn entries_keep_their_order_within_a_bucket() {
    let ids = ["E3", "E1", "E2", "E1"];
    let items = ids.iter().map(|id| MediaCollection::Episode(an_episode(id))).collect();
    let decoded = QueryResults::try_from(envelope(vec![group("episode", items, 4)])).unwrap();

    let decoded_ids: Vec<String> =
        decoded.episode.unwrap().items.into_iter().map(|e| e.id).collect();
    assert_eq!(decoded_ids, vec!["E3", "E1", "E2", "E1"]);
}

#[test]
fn top_results_keep_entries_of_every_kind_as_they_came() {
    let mixed = || {
        vec![
            MediaCollection::Season(a_season("N1")),
            MediaCollection::Movie(a_movie("M1")),
            MediaCollection::Series(a_series("S1")),
            MediaCollection::Episode(an_episode("E1")),
            MediaCollection::MovieListing(a_movie_listing("L1")),
        ]
    };
    let decoded = QueryResults::try_from(envelope(vec![group("top_results", mixed(), 5)])).unwrap();
    assert_eq!(decoded.top_results, Some(BulkResult { items: mixed(), total: 5 }));
}

#[test]
fn discriminators_are_compared_exactly() {
    assert_eq!(Discriminator::from_token("top_results"), Some(Discriminator::TopResults));
    assert_eq!(Discriminator::from_token("series"), Some(Discriminator::Series));
    assert_eq!(Discriminator::from_token("movie_listing"), Some(Discriminator::MovieListing));
    assert_eq!(Discriminator::from_token("episode"), Some(Discriminator::Episode));
    assert_eq!(Discriminator::from_token("Series"), None);
    assert_eq!(Discriminator::from_token(" series"), None);
    assert_eq!(Discriminator::from_token("serie"), None);
    assert_eq!(Discriminator::from_token("season"), None);
    assert_eq!(Discriminator::from_token("movie"), None);
    assert_eq!(Discriminator::from_token(""), None);

    let outcome = QueryResults::try_from(envelope(vec![group("EPISODE", vec![], 0)]));
    assert!(matches!(
        outcome,
        Err(DecodeError::UnrecognizedDiscriminator { ref tag, .. }) if tag == "EPISODE"
    ));
}

#[test]
fn every_discriminator_is_read_back_from_its_token() {
    for kind in [
        Discriminator::TopResults,
        Discriminator::Series,
        Discriminator::MovieListing,
        Discriminator::Episode,
    ] {
        assert_eq!(Discriminator::from_token(kind.as_str()), Some(kind));
    }
    assert_eq!(Discriminator::TopResults.as_str(), "top_results");
    assert_eq!(Discriminator::Series.as_str(), "series");
    assert_eq!(Discriminator::MovieListing.as_str(), "movie_listing");
    assert_eq!(Discriminator::Episode.as_str(), "episode");
}

#[test]
fn decoding_twice_gives_the_same_outcome() {
    let groups = || {
        vec![
            group("series", vec![MediaCollection::Series(a_series("S1"))], 3),
            group("top_results", vec![MediaCollection::Movie(a_movie("M1"))], 8),
        ]
    };
    assert_eq!(
        QueryResults::try_from(envelope(groups())),
        QueryResults::try_from(envelope(groups()))
    );

    let broken = || vec![group("series", vec![], 0), group("nope", vec![], 0)];
    assert_eq!(
        QueryResults::try_from(envelope(broken())),
        QueryResults::try_from(envelope(broken()))
    );
}

#[test]
fn decode_errors_say_what_went_wrong() {
    let unknown = DecodeError::UnrecognizedDiscriminator {
        tag: "unknown_type".to_string(),
        snapshot: BulkResult { items: vec![], total: 0 },
    };
    assert_eq!(unknown.message(), "invalid result type found: 'unknown_type'");

    let mismatch =
        DecodeError::ShapeMismatch { expected: MediaKind::MovieListing, found: MediaKind::Season };
    assert_eq!(mismatch.message(), "expected an entry of type 'movie_listing', found 'season'");
}

#[test]
fn entries_convert_to_their_own_kind_only() {
    let series = MediaCollection::Series(a_series("S1"));
    assert_eq!(series.kind(), MediaKind::Series);
    assert_eq!(series.to_series(), Ok(a_series("S1")));
    assert_eq!(
        series.to_episode(),
        Err(DecodeError::ShapeMismatch { expected: MediaKind::Episode, found: MediaKind::Series })
    );
    assert_eq!(
        series.to_movie_listing(),
        Err(DecodeError::ShapeMismatch {
            expected: MediaKind::MovieListing,
            found: MediaKind::Series,
        })
    );

    let listing = MediaCollection::MovieListing(a_movie_listing("L1"));
    assert_eq!(listing.kind(), MediaKind::MovieListing);
    assert_eq!(listing.to_movie_listing(), Ok(a_movie_listing("L1")));

    let episode = MediaCollection::Episode(an_episode("E1"));
    assert_eq!(episode.kind(), MediaKind::Episode);
    assert_eq!(episode.to_episode(), Ok(an_episode("E1")));

    assert_eq!(MediaCollection::Season(a_season("N1")).kind(), MediaKind::Season);
    assert_eq!(
        MediaCollection::Movie(a_movie("M1")).to_series(),
        Err(DecodeError::ShapeMismatch { expected: MediaKind::Series, found: MediaKind::Movie })
    );
}

#[test]
fn copies_of_entries_equal_what_they_copy() {
    let entry = MediaCollection::Episode(an_episode("E9"));
    let copy = entry.clone();
    assert_eq!(copy, entry);
    assert_eq!(a_movie("M2").clone(), a_movie("M2"));
}

#[test]
fn kinds_have_their_wire_tokens() {
    assert_eq!(MediaKind::Series.as_str(), "series");
    assert_eq!(MediaKind::Season.as_str(), "season");
    assert_eq!(MediaKind::Episode.as_str(), "episode");
    assert_eq!(MediaKind::MovieListing.as_str(), "movie_listing");
    assert_eq!(MediaKind::Movie.as_str(), "movie");
}

#[test]
fn results_and_groups_have_copies_and_defaults() {
    assert_eq!(
        QueryResults::default(),
        QueryResults { top_results: None, series: None, movie_listing: None, episode: None }
    );
    assert_eq!(QueryBulkResult::default(), group("", vec![], 0));

    let a_group = group("series", vec![MediaCollection::Series(a_series("S1"))], 3);
    assert_eq!(a_group.clone(), a_group);

    let page = envelope(vec![a_group]);
    assert_eq!(page.clone(), page);

    let decoded = QueryResults::try_from(page).unwrap();
    assert_eq!(decoded.clone(), decoded);
    assert_eq!(decoded.series, Some(BulkResult { items: vec![a_series("S1")], total: 3 }));
}
