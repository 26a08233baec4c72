//! The genres by which the catalogue can be narrowed.

use vstd::prelude::*;
use crate::text::{free_of, join, join_texts, lemma_join_is_unambiguous};

verus! {

/// A genre of the catalogue.
#[derive(Clone, Copy, Debug, PartialEq, Eq, Structural)]
pub enum Category {
    Action,
    Adventure,
    Comedy,
    Drama,
    Fantasy,
    Music,
    Romance,
    SciFi,
    Seinen,
    Shojo,
    Shonen,
    SliceOfLife,
    Sports,
    Supernatural,
    Thriller,
}

impl Category {
    /// The token that stands for this genre in a query.
    pub open spec fn token(self) -> Seq<char> {
        match self {
            Category::Action => "action"@,
            Category::Adventure => "adventure"@,
            Category::Comedy => "comedy"@,
            Category::Drama => "drama"@,
            Category::Fantasy => "fantasy"@,
            Category::Music => "music"@,
            Category::Romance => "romance"@,
            Category::SciFi => "sci-fi"@,
            Category::Seinen => "seinen"@,
            Category::Shojo => "shojo"@,
            Category::Shonen => "shonen"@,
            Category::SliceOfLife => "slice+of+life"@,
            Category::Sports => "sports"@,
            Category::Supernatural => "supernatural"@,
            Category::Thriller => "thriller"@,
        }
    }

    /// The token that stands for this genre in a query.
    pub fn as_str(self) -> (r: &'static str)
        ensures
            r@ == self.token(),
    {
        match self {
            Category::Action => "action",
            Category::Adventure => "adventure",
            Category::Comedy => "comedy",
            Category::Drama => "drama",
            Category::Fantasy => "fantasy",
            Category::Music => "music",
            Category::Romance => "romance",
            Category::SciFi => "sci-fi",
            Category::Seinen => "seinen",
            Category::Shojo => "shojo",
            Category::Shonen => "shonen",
            Category::SliceOfLife => "slice+of+life",
            Category::Sports => "sports",
            Category::Supernatural => "supernatural",
            Category::Thriller => "thriller",
        }
    }
}

/// The tokens of a list of genres, in the order of the list.
pub open spec fn category_tokens(categories: Seq<Category>) -> Seq<Seq<char>> {
    categories.map_values(|c: Category| c.token())
}

/// How a list of genres is written in a query: the tokens in the order of
/// the list, with a comma between neighbours.
pub open spec fn category_list(categories: Seq<Category>) -> Seq<char> {
    join(category_tokens(categories), ","@)
}

/// Writes a list of genres as one query value.
pub fn categories_to_text(categories: &Vec<Category>) -> (s: String)
    ensures
        s@ == category_list(categories@),
{
    let mut tokens: Vec<&str> = Vec::new();
    let mut i: usize = 0;
    while i < categories.len()
        invariant
            i <= categories.len(),
            tokens.deep_view() == category_tokens(categories@.take(i as int)),
        decreases categories.len() - i,
    {
        let ghost before = tokens.deep_view();
        let token = categories[i].as_str();
        tokens.push(token);
        proof {
            assert(tokens.deep_view() =~= before.push(token@));
            assert(category_tokens(categories@.take(i + 1)) =~= category_tokens(
                categories@.take(i as int),
            ).push(categories@[i as int].token()));
        }
        i += 1;
    }
    assert(categories@.take(i as int) == categories@);
    join_texts(&tokens, ",")
}

/// No genre token is empty or holds a comma, the character that separates
/// the tokens of a list.
pub proof fn lemma_token_is_comma_free(category: Category)
    ensures
        free_of(category.token(), ','),
{
    reveal_strlit("action");
    reveal_strlit("adventure");
    reveal_strlit("comedy");
    reveal_strlit("drama");
    reveal_strlit("fantasy");
    reveal_strlit("music");
    reveal_strlit("romance");
    reveal_strlit("sci-fi");
    reveal_strlit("seinen");
    reveal_strlit("shojo");
    reveal_strlit("shonen");
    reveal_strlit("slice+of+life");
    reveal_strlit("sports");
    reveal_strlit("supernatural");
    reveal_strlit("thriller");
}

/// What tells the genre tokens apart: the length of a token and its first
/// two characters.
pub open spec fn token_mark(category: Category) -> (nat, char, char) {
    match category {
        Category::Action => (6, 'a', 'c'),
        Category::Adventure => (9, 'a', 'd'),
        Category::Comedy => (6, 'c', 'o'),
        Category::Drama => (5, 'd', 'r'),
        Category::Fantasy => (7, 'f', 'a'),
        Category::Music => (5, 'm', 'u'),
        Category::Romance => (7, 'r', 'o'),
        Category::SciFi => (6, 's', 'c'),
        Category::Seinen => (6, 's', 'e'),
        Category::Shojo => (5, 's', 'h'),
        Category::Shonen => (6, 's', 'h'),
        Category::SliceOfLife => (13, 's', 'l'),
        Category::Sports => (6, 's', 'p'),
        Category::Supernatural => (12, 's', 'u'),
        Category::Thriller => (8, 't', 'h'),
    }
}

/// Every genre token has the length and the first two characters of its
/// mark.
pub proof fn lemma_token_mark(category: Category)
    ensures
        category.token().len() == token_mark(category).0,
        category.token()[0] == token_mark(category).1,
        category.token()[1] == token_mark(category).2,
{
    reveal_strlit("action");
    reveal_strlit("adventure");
    reveal_strlit("comedy");
    reveal_strlit("drama");
    reveal_strlit("fantasy");
    reveal_strlit("music");
    reveal_strlit("romance");
    reveal_strlit("sci-fi");
    reveal_strlit("seinen");
    reveal_strlit("shojo");
    reveal_strlit("shonen");
    reveal_strlit("slice+of+life");
    reveal_strlit("sports");
    reveal_strlit("supernatural");
    reveal_strlit("thriller");
}

/// No two genres share a token.
pub proof fn lemma_token_names_one_category(a: Category, b: Category)
    requires
        a.token() == b.token(),
    ensures
        a == b,
{
    lemma_token_mark(a);
    lemma_token_mark(b);
}

/// A written list of genres can be read in one way only: two lists are
/// written as the same text only if they hold the same genres in the same
/// order.
pub proof fn lemma_category_list_is_unambiguous(a: Seq<Category>, b: Seq<Category>)
    requires
        category_list(a) == category_list(b),
    ensures
        a == b,
{
    let a_tokens = category_tokens(a);
    let b_tokens = category_tokens(b);
    assert forall|i: int| 0 <= i < a_tokens.len() implies free_of(
        #[trigger] a_tokens[i],
        ',',
    ) by {
        lemma_token_is_comma_free(a[i]);
    }
    assert forall|i: int| 0 <= i < b_tokens.len() implies free_of(
        #[trigger] b_tokens[i],
        ',',
    ) by {
        lemma_token_is_comma_free(b[i]);
    }
    reveal_strlit(",");
    assert(","@ =~= seq![',']);
    lemma_join_is_unambiguous(a_tokens, b_tokens, ',');
    assert(a.len() == b.len());
    assert forall|i: int| 0 <= i < a.len() implies a[i] == b[i] by {
        assert(a_tokens[i] == b_tokens[i]);
        lemma_token_names_one_category(a[i], b[i]);
    }
    assert(a =~= b);
}

} // verus!
