use crunchyroll_rs::categories::Category;
use crunchyroll_rs::media::MediaType;
use crunchyroll_rs::common::BulkResult;
use crunchyroll_rs::search::{
    BrowseOptions, BrowseSortType, SimulcastSeason, SimulcastSeasonLocalization,
};

fn pair(key: &str, value: &str) -> (String, String) {
    (key.to_string(), value.to_string())
}

#[test]
fn unset_browse_options_give_sort_then_limit_defaults() {
    let pairs = BrowseOptions::default().into_query();
    assert_eq!(pairs, vec![pair("sort", "newly_added"), pair("n", "20")]);
}

#[test]
fn fully_set_browse_options_give_one_pair_per_field_in_schema_order() {
    let options = BrowseOptions::default()
        .categories(vec![Category::Action, Category::SciFi, Category::SliceOfLife])
        .is_dubbed(true)
        .is_subbed(false)
        .simulcast_season("winter-2023".to_string())
        .sort(BrowseSortType::Popularity)
        .media_type(MediaType::Movie)
        .limit(100)
        .start(40);
    let pairs = options.into_query();
    assert_eq!(
        pairs,
        vec![
            pair("categories", "action,sci-fi,slice+of+life"),
            pair("is_dubbed", "true"),
            pair("is_subbed", "false"),
            pair("season_tag", "winter-2023"),
            pair("sort", "popularity"),
            pair("type", "movie_listing"),
            pair("n", "100"),
            pair("start", "40"),
        ]
    );
}

#[test]
fn building_browse_pairs_twice_gives_the_same_pairs() {
    let options = BrowseOptions::default()
        .categories(vec![Category::Drama, Category::Music])
        .simulcast_season("spring-2022".to_string())
        .start(7);
    let first = options.clone().into_query();
    let second = options.into_query();
    assert_eq!(first, second);
    assert_eq!(
        first,
        vec![
            pair("categories", "drama,music"),
            pair("season_tag", "spring-2022"),
            pair("sort", "newly_added"),
            pair("n", "20"),
            pair("start", "7"),
        ]
    );
}

#[test]
fn each_browse_field_is_written_under_its_own_key() {
    let defaults = || vec![pair("sort", "newly_added"), pair("n", "20")];
    let with = |extra_at: usize, key: &str, value: &str| {
        let mut pairs = defaults();
        pairs.insert(extra_at, pair(key, value));
        pairs
    };

    assert_eq!(
        BrowseOptions::default().categories(vec![Category::Comedy]).into_query(),
        with(0, "categories", "comedy")
    );
    assert_eq!(
        BrowseOptions::default().is_dubbed(false).into_query(),
        with(0, "is_dubbed", "false")
    );
    assert_eq!(
        BrowseOptions::default().is_subbed(true).into_query(),
        with(0, "is_subbed", "true")
    );
    assert_eq!(
        BrowseOptions::default().simulcast_season("fall-2021".to_string()).into_query(),
        with(0, "season_tag", "fall-2021")
    );
    assert_eq!(
        BrowseOptions::default().media_type(MediaType::Series).into_query(),
        with(1, "type", "series")
    );
    assert_eq!(BrowseOptions::default().start(60).into_query(), with(2, "start", "60"));
}

#[test]
fn set_sort_and_limit_replace_their_defaults() {
    assert_eq!(
        BrowseOptions::default().sort(BrowseSortType::Alphabetical).into_query(),
        vec![pair("sort", "alphabetical"), pair("n", "20")]
    );
    assert_eq!(
        BrowseOptions::default().limit(0).into_query(),
        vec![pair("sort", "newly_added"), pair("n", "0")]
    );
    assert_eq!(
        BrowseOptions::default().sort(BrowseSortType::NewlyAdded).limit(20).into_query(),
        BrowseOptions::default().into_query()
    );
}

#[test]
fn a_later_setting_of_a_field_replaces_the_earlier_one() {
    assert_eq!(
        BrowseOptions::default().start(1).start(2).into_query(),
        vec![pair("sort", "newly_added"), pair("n", "20"), pair("start", "2")]
    );
}

#[test]
fn set_but_empty_values_are_still_written() {
    assert_eq!(
        BrowseOptions::default()
            .categories(vec![])
            .simulcast_season(String::new())
            .into_query(),
        vec![
            pair("categories", ""),
            pair("season_tag", ""),
            pair("sort", "newly_added"),
            pair("n", "20"),
        ]
    );
}

#[test]
fn text_values_are_written_as_they_are() {
    assert_eq!(
        BrowseOptions::default().simulcast_season("a b&c=d,e".to_string()).into_query()[0],
        pair("season_tag", "a b&c=d,e")
    );
}

#[test]
fn unset_fields_of_a_plain_struct_behave_like_the_default() {
    let options = BrowseOptions {
        categories: None,
        is_dubbed: None,
        is_subbed: None,
        simulcast_season: None,
        sort: None,
        media_type: None,
        limit: None,
        start: None,
    };
    assert_eq!(options, BrowseOptions::default());
    assert_eq!(options.into_query(), vec![pair("sort", "newly_added"), pair("n", "20")]);
}

#[test]
fn sort_orders_and_media_types_have_their_tokens() {
    assert_eq!(BrowseSortType::Popularity.as_str(), "popularity");
    assert_eq!(BrowseSortType::NewlyAdded.as_str(), "newly_added");
    assert_eq!(BrowseSortType::Alphabetical.as_str(), "alphabetical");
    assert_eq!(MediaType::Series.as_str(), "series");
    assert_eq!(MediaType::Movie.as_str(), "movie_listing");
}

#[test]
fn simulcast_seasons_come_as_the_items_of_a_page() {
    let season = |id: &str, title: &str| SimulcastSeason {
        id: id.to_string(),
        localization: SimulcastSeasonLocalization {
            title: title.to_string(),
            description: String::new(),
        },
    };
    let page = BulkResult {
        items: vec![season("winter-2023", "Winter 2023"), season("fall-2022", "Fall 2022")],
        total: 2,
    };
    let tags: Vec<&str> = page.items.iter().map(|s| s.id.as_str()).collect();
    assert_eq!(tags, vec!["winter-2023", "fall-2022"]);
    assert_eq!(page.items[0].clone(), season("winter-2023", "Winter 2023"));
    assert_eq!(SimulcastSeason::default(), season("", ""));
}
