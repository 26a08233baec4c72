//! Browsing and searching the catalogue.

pub mod browse;
pub mod query;

pub use browse::{
    BrowseOptions, BrowseOptionsView, BrowseSortType, SimulcastSeason,
    SimulcastSeasonLocalization, SimulcastSeasonLocalizationView, SimulcastSeasonView,
};
pub use query::{
    Discriminator, QueryBulkResult, QueryBulkResultView, QueryOptions, QueryOptionsView,
    QueryResults, QueryResultsView, QueryType,
};
