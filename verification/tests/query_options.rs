use crunchyroll_rs::options::emit_pairs;
use crunchyroll_rs::search::query::search_query;
use crunchyroll_rs::search::{QueryOptions, QueryType};

fn kv(key: &str, value: &str) -> (String, String) {
    (key.to_string(), value.to_string())
}

#[test]
fn unset_query_options_give_the_limit_default() {
    assert_eq!(QueryOptions::default().into_query(), vec![kv("n", "20")]);
}

#[test]
fn fully_set_query_options_give_limit_then_type() {
    let options = QueryOptions::default().result_type(QueryType::MovieListing).limit(3);
    assert_eq!(options.into_query(), vec![kv("n", "3"), kv("type", "movie_listing")]);
}

#[test]
fn building_query_pairs_twice_gives_the_same_pairs() {
    let options = QueryOptions::default().result_type(QueryType::Episode);
    assert_eq!(options.clone().into_query(), options.clone().into_query());
    assert_eq!(options.into_query(), vec![kv("n", "20"), kv("type", "episode")]);
}

#[test]
fn query_types_have_their_tokens() {
    assert_eq!(QueryType::Series.as_str(), "series");
    assert_eq!(QueryType::MovieListing.as_str(), "movie_listing");
    assert_eq!(QueryType::Episode.as_str(), "episode");
}

#[test]
fn search_text_follows_the_options() {
    assert_eq!(
        search_query("naruto", QueryOptions::default()),
        vec![kv("n", "20"), kv("q", "naruto")]
    );
    assert_eq!(
        search_query(
            "one piece",
            QueryOptions::default().limit(5).result_type(QueryType::Series)
        ),
        vec![kv("n", "5"), kv("type", "series"), kv("q", "one piece")]
    );
    assert_eq!(search_query("", QueryOptions::default()), vec![kv("n", "20"), kv("q", "")]);
}

#[test]
fn limit_is_written_as_given_without_a_range_check() {
    assert_eq!(QueryOptions::default().limit(0).into_query(), vec![kv("n", "0")]);
    assert_eq!(
        QueryOptions::default().limit(u32::MAX).into_query(),
        vec![kv("n", "4294967295")]
    );
}

#[test]
fn fields_without_a_value_are_left_out_and_order_is_kept() {
    let pairs = emit_pairs(vec![
        ("z", Some("last letter first".to_string())),
        ("skipped", None),
        ("a", Some(String::new())),
        ("z", Some("again".to_string())),
    ]);
    assert_eq!(pairs, vec![kv("z", "last letter first"), kv("a", ""), kv("z", "again")]);
    assert_eq!(emit_pairs(vec![]), vec![]);
    assert_eq!(emit_pairs(vec![("only", None)]), vec![]);
}
