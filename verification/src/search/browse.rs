//! Browsing the catalogue: the options that narrow and order a listing, and
//! the simulcast seasons a listing can be narrowed to.

use vstd::prelude::*;
use crate::categories::{categories_to_text, category_list, Category};
use crate::media::MediaType;
use crate::options::{emit, emit_pairs, Field, Pair, DEFAULT_LIMIT};
use crate::text::{bool_text, bool_to_text, decimal, u32_to_decimal};

verus! {

/// The name and description of a simulcast season in the caller's language.
#[derive(Clone, Debug, Default, PartialEq, Eq)]
pub struct SimulcastSeasonLocalization {
    pub title: String,
    pub description: String,
}

/// A simulcast season: the tag by which a catalogue listing is narrowed to
/// it, and how to present it.
#[derive(Clone, Debug, Default, PartialEq, Eq)]
pub struct SimulcastSeason {
    pub id: String,
    pub localization: SimulcastSeasonLocalization,
}

/// Mathematical model of a [`SimulcastSeasonLocalization`].
pub ghost struct SimulcastSeasonLocalizationView {
    pub title: Seq<char>,
    pub description: Seq<char>,
}

/// Mathematical model of a [`SimulcastSeason`].
pub ghost struct SimulcastSeasonView {
    pub id: Seq<char>,
    pub localization: SimulcastSeasonLocalizationView,
}

impl View for SimulcastSeasonLocalization {
    type V = SimulcastSeasonLocalizationView;

    open spec fn view(&self) -> SimulcastSeasonLocalizationView {
        SimulcastSeasonLocalizationView { title: self.title@, description: self.description@ }
    }
}

impl View for SimulcastSeason {
    type V = SimulcastSeasonView;

    open spec fn view(&self) -> SimulcastSeasonView {
        SimulcastSeasonView { id: self.id@, localization: self.localization@ }
    }
}

impl DeepView for SimulcastSeason {
    type V = SimulcastSeasonView;

    open spec fn deep_view(&self) -> SimulcastSeasonView {
        self.view()
    }
}

/// The orders in which a catalogue listing can be asked for.
#[derive(Clone, Copy, Debug, PartialEq, Eq, Structural)]
pub enum BrowseSortType {
    Popularity,
    NewlyAdded,
    Alphabetical,
}

impl BrowseSortType {
    /// The token that stands for this order in a query.
    pub open spec fn token(self) -> Seq<char> {
        match self {
            BrowseSortType::Popularity => "popularity"@,
            BrowseSortType::NewlyAdded => "newly_added"@,
            BrowseSortType::Alphabetical => "alphabetical"@,
        }
    }

    /// The token that stands for this order in a query.
    pub fn as_str(self) -> (r: &'static str)
        ensures
            r@ == self.token(),
    {
        match self {
            BrowseSortType::Popularity => "popularity",
            BrowseSortType::NewlyAdded => "newly_added",
            BrowseSortType::Alphabetical => "alphabetical",
        }
    }
}

/// The options of a catalogue listing. A field that is `None` is unset.
///
/// Schema, in the order in which the fields are written:
///
/// | field              | key          | written as                        | unset          |
/// |--------------------|--------------|-----------------------------------|----------------|
/// | `categories`       | `categories` | tokens, comma between neighbours  | left out       |
/// | `is_dubbed`        | `is_dubbed`  | `true` or `false`                 | left out       |
/// | `is_subbed`        | `is_subbed`  | `true` or `false`                 | left out       |
/// | `simulcast_season` | `season_tag` | as it is                          | left out       |
/// | `sort`             | `sort`       | token                             | `newly_added`  |
/// | `media_type`       | `type`       | token                             | left out       |
/// | `limit`            | `n`          | decimal                           | `20`           |
/// | `start`            | `start`      | decimal                           | left out       |
#[derive(Clone, Debug, PartialEq, Eq)]
pub struct BrowseOptions {
    /// The genres of the entries.
    pub categories: Option<Vec<Category>>,
    /// Whether the entries are dubbed.
    pub is_dubbed: Option<bool>,
    /// Whether the entries are subbed.
    pub is_subbed: Option<bool>,
    /// The simulcast season in which the entries aired, by its tag.
    pub simulcast_season: Option<String>,
    /// The order of the entries.
    pub sort: Option<BrowseSortType>,
    /// The type of the entries.
    pub media_type: Option<MediaType>,
    /// The number of entries to return.
    pub limit: Option<u32>,
    /// The index of the first entry to return.
    pub start: Option<u32>,
}

/// Mathematical model of a [`BrowseOptions`].
pub ghost struct BrowseOptionsView {
    pub categories: Option<Seq<Category>>,
    pub is_dubbed: Option<bool>,
    pub is_subbed: Option<bool>,
    pub simulcast_season: Option<Seq<char>>,
    pub sort: Option<BrowseSortType>,
    pub media_type: Option<MediaType>,
    pub limit: Option<u32>,
    pub start: Option<u32>,
}

impl View for BrowseOptions {
    type V = BrowseOptionsView;

    open spec fn view(&self) -> BrowseOptionsView {
        BrowseOptionsView {
            categories: match self.categories {
                Some(c) => Some(c@),
                None => None,
            },
            is_dubbed: self.is_dubbed,
            is_subbed: self.is_subbed,
            simulcast_season: match self.simulcast_season {
                Some(s) => Some(s@),
                None => None,
            },
            sort: self.sort,
            media_type: self.media_type,
            limit: self.limit,
            start: self.start,
        }
    }
}

impl BrowseOptionsView {
    /// The options with every field unset.
    pub open spec fn unset() -> BrowseOptionsView {
        BrowseOptionsView {
            categories: None,
            is_dubbed: None,
            is_subbed: None,
            simulcast_season: None,
            sort: None,
            media_type: None,
            limit: None,
            start: None,
        }
    }

    /// Whether every field is set.
    pub open spec fn all_set(self) -> bool {
        &&& self.categories is Some
        &&& self.is_dubbed is Some
        &&& self.is_subbed is Some
        &&& self.simulcast_season is Some
        &&& self.sort is Some
        &&& self.media_type is Some
        &&& self.limit is Some
        &&& self.start is Some
    }

    /// The order that the listing is asked for: the one set, or newly added
    /// first.
    pub open spec fn effective_sort(self) -> BrowseSortType {
        match self.sort {
            Some(sort) => sort,
            None => BrowseSortType::NewlyAdded,
        }
    }

    /// The number of entries that the listing is asked for: the one set, or
    /// the default.
    pub open spec fn effective_limit(self) -> u32 {
        match self.limit {
            Some(limit) => limit,
            None => DEFAULT_LIMIT,
        }
    }

    /// The fields in the order of the schema, each with its key and, where it
    /// has one, its value as it is written.
    pub open spec fn fields(self) -> Seq<Field> {
        seq![
            (
                "categories"@,
                match self.categories {
                    Some(c) => Some(category_list(c)),
                    None => None,
                },
            ),
            (
                "is_dubbed"@,
                match self.is_dubbed {
                    Some(b) => Some(bool_text(b)),
                    None => None,
                },
            ),
            (
                "is_subbed"@,
                match self.is_subbed {
                    Some(b) => Some(bool_text(b)),
                    None => None,
                },
            ),
            ("season_tag"@, self.simulcast_season),
            ("sort"@, Some(self.effective_sort().token())),
            (
                "type"@,
                match self.media_type {
                    Some(t) => Some(t.token()),
                    None => None,
                },
            ),
            ("n"@, Some(decimal(self.effective_limit() as nat))),
            (
                "start"@,
                match self.start {
                    Some(n) => Some(decimal(n as nat)),
                    None => None,
                },
            ),
        ]
    }

    /// The pairs of the query string that asks for a listing under these
    /// options.
    pub open spec fn query_pairs(self) -> Seq<Pair> {
        emit(self.fields())
    }
}

impl Default for BrowseOptions {
    /// The options with every field unset.
    fn default() -> (r: Self)
        ensures
            r@ == BrowseOptionsView::unset(),
    {
        BrowseOptions {
            categories: None,
            is_dubbed: None,
            is_subbed: None,
            simulcast_season: None,
            sort: None,
            media_type: None,
            limit: None,
            start: None,
        }
    }
}

impl BrowseOptions {
    /// Sets the genres of the entries.
    pub fn categories(self, value: Vec<Category>) -> (r: Self)
        ensures
            r@ == (BrowseOptionsView { categories: Some(value@), ..self@ }),
    {
        BrowseOptions { categories: Some(value), ..self }
    }

    /// Sets whether the entries are dubbed.
    pub fn is_dubbed(self, value: bool) -> (r: Self)
        ensures
            r@ == (BrowseOptionsView { is_dubbed: Some(value), ..self@ }),
    {
        BrowseOptions { is_dubbed: Some(value), ..self }
    }

    /// Sets whether the entries are subbed.
    pub fn is_subbed(self, value: bool) -> (r: Self)
        ensures
            r@ == (BrowseOptionsView { is_subbed: Some(value), ..self@ }),
    {
        BrowseOptions { is_subbed: Some(value), ..self }
    }

    /// Sets the simulcast season in which the entries aired, by its tag.
    pub fn simulcast_season(self, value: String) -> (r: Self)
        ensures
            r@ == (BrowseOptionsView { simulcast_season: Some(value@), ..self@ }),
    {
        BrowseOptions { simulcast_season: Some(value), ..self }
    }

    /// Sets the order of the entries.
    pub fn sort(self, value: BrowseSortType) -> (r: Self)
        ensures
            r@ == (BrowseOptionsView { sort: Some(value), ..self@ }),
    {
        BrowseOptions { sort: Some(value), ..self }
    }

    /// Sets the type of the entries.
    pub fn media_type(self, value: MediaType) -> (r: Self)
        ensures
            r@ == (BrowseOptionsView { media_type: Some(value), ..self@ }),
    {
        BrowseOptions { media_type: Some(value), ..self }
    }

    /// Sets the number of entries to return.
    pub fn limit(self, value: u32) -> (r: Self)
        ensures
            r@ == (BrowseOptionsView { limit: Some(value), ..self@ }),
    {
        BrowseOptions { limit: Some(value), ..self }
    }

    /// Sets the index of the first entry to return.
    pub fn start(self, value: u32) -> (r: Self)
        ensures
            r@ == (BrowseOptionsView { start: Some(value), ..self@ }),
    {
        BrowseOptions { start: Some(value), ..self }
    }

    /// Writes the options as the pairs of a query string: one pair for each
    /// field that is set or has a default, in the order of the schema.
    pub fn into_query(self) -> (pairs: Vec<(String, String)>)
        ensures
            pairs.deep_view() == self@.query_pairs(),
    {
        let categories = match &self.categories {
            Some(c) => Some(categories_to_text(c)),
            None => None,
        };
        let is_dubbed = match self.is_dubbed {
            Some(b) => Some(bool_to_text(b)),
            None => None,
        };
        let is_subbed = match self.is_subbed {
            Some(b) => Some(bool_to_text(b)),
            None => None,
        };
        let sort = match self.sort {
            Some(sort) => sort,
            None => BrowseSortType::NewlyAdded,
        };
        let media_type = match self.media_type {
            Some(t) => Some(String::from_str(t.as_str())),
            None => None,
        };
        let limit = match self.limit {
            Some(limit) => limit,
            None => DEFAULT_LIMIT,
        };
        let start = match self.start {
            Some(n) => Some(u32_to_decimal(n)),
            None => None,
        };
        let ghost model = self@;
        let fields = vec![
            ("categories", categories),
            ("is_dubbed", is_dubbed),
            ("is_subbed", is_subbed),
            ("season_tag", self.simulcast_season),
            ("sort", Some(String::from_str(sort.as_str()))),
            ("type", media_type),
            ("n", Some(u32_to_decimal(limit))),
            ("start", start),
        ];
        assert(fields.deep_view() =~= model.fields());
        emit_pairs(fields)
    }
}

/// The pairs that options with every field unset give: the declared
/// defaults, `sort` before `n`, and nothing else.
pub open spec fn default_pairs() -> Seq<Pair> {
    seq![("sort"@, "newly_added"@), ("n"@, "20"@)]
}

/// Options with no field set are written as exactly the fields that have a
/// default, with their defaults, in the order of the schema.
pub proof fn lemma_unset_options_give_defaults(options: BrowseOptionsView)
    requires
        options == BrowseOptionsView::unset(),
    ensures
        options.query_pairs() == default_pairs(),
{
    reveal_with_fuel(emit, 9);
    reveal_with_fuel(decimal, 2);
    reveal_strlit("20");
    assert(decimal(20) =~= "20"@);
    assert(options.query_pairs() =~= default_pairs());
}

/// Options with every field set are written as one pair for each field, in
/// the order of the schema: none is left out.
pub proof fn lemma_set_options_give_every_field(options: BrowseOptionsView)
    requires
        options.all_set(),
    ensures
        options.query_pairs() == seq![
            ("categories"@, category_list(options.categories->0)),
            ("is_dubbed"@, bool_text(options.is_dubbed->0)),
            ("is_subbed"@, bool_text(options.is_subbed->0)),
            ("season_tag"@, options.simulcast_season->0),
            ("sort"@, (options.sort->0).token()),
            ("type"@, (options.media_type->0).token()),
            ("n"@, decimal((options.limit->0) as nat)),
            ("start"@, decimal((options.start->0) as nat)),
        ],
{
    reveal_with_fuel(emit, 9);
    assert(options.query_pairs() =~= seq![
        ("categories"@, category_list(options.categories->0)),
        ("is_dubbed"@, bool_text(options.is_dubbed->0)),
        ("is_subbed"@, bool_text(options.is_subbed->0)),
        ("season_tag"@, options.simulcast_season->0),
        ("sort"@, (options.sort->0).token()),
        ("type"@, (options.media_type->0).token()),
        ("n"@, decimal((options.limit->0) as nat)),
        ("start"@, decimal((options.start->0) as nat)),
    ]);
}

/// Writing the same options twice gives the same pairs in the same order:
/// whatever two calls of `into_query` return for options with one model
/// has one model.
pub proof fn lemma_query_is_repeatable(
    first: BrowseOptions,
    second: BrowseOptions,
    first_pairs: Vec<(String, String)>,
    second_pairs: Vec<(String, String)>,
)
    requires
        first@ == second@,
        call_ensures(BrowseOptions::into_query, (first,), first_pairs),
        call_ensures(BrowseOptions::into_query, (second,), second_pairs),
    ensures
        first_pairs.deep_view() == second_pairs.deep_view(),
{
}

} // verus!
