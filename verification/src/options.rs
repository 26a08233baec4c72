//! From the fields of an option set to the pairs of a query string.
//!
//! An option set has a fixed schema: its fields in the order of their
//! declaration, each with the key under which it is written. A field that
//! has a value, its own or a declared default, is written as one pair; a
//! field without one is left out. The pairs keep the order of the schema.

use vstd::prelude::*;

verus! {

/// The number of entries asked for where an option set names none.
pub const DEFAULT_LIMIT: u32 = 20;

/// One pair of a query string: key and value.
pub type Pair = (Seq<char>, Seq<char>);

/// One field of an option set, ready to be written: its key, and its value
/// as text where it has one.
pub type Field = (Seq<char>, Option<Seq<char>>);

/// The pairs that the fields give: one for each field that has a value, in
/// the order of the fields.
pub open spec fn emit(fields: Seq<Field>) -> Seq<Pair>
    decreases fields.len(),
{
    if fields.len() == 0 {
        Seq::empty()
    } else {
        let before = emit(fields.drop_last());
        match fields.last().1 {
            Some(value) => before.push((fields.last().0, value)),
            None => before,
        }
    }
}

/// The number of fields that have a value.
pub open spec fn count_set(fields: Seq<Field>) -> nat
    decreases fields.len(),
{
    if fields.len() == 0 {
        0
    } else if fields.last().1 is Some {
        count_set(fields.drop_last()) + 1
    } else {
        count_set(fields.drop_last())
    }
}

/// Writes the fields that have a value as pairs, in the order of the fields.
pub fn emit_pairs(fields: Vec<(&'static str, Option<String>)>) -> (pairs: Vec<(String, String)>)
    ensures
        pairs.deep_view() == emit(fields.deep_view()),
{
    let ghost all = fields.deep_view();
    let mut pairs: Vec<(String, String)> = Vec::new();
    let mut i: usize = 0;
    while i < fields.len()
        invariant
            i <= fields.len(),
            all == fields.deep_view(),
            pairs.deep_view() == emit(all.take(i as int)),
        decreases fields.len() - i,
    {
        proof {
            assert(all.take(i + 1).drop_last() == all.take(i as int));
            assert(all.take(i + 1).last() == fields[i as int].deep_view());
        }
        let field = &fields[i];
        match &field.1 {
            Some(value) => {
                let ghost before = pairs.deep_view();
                let pair = (String::from_str(field.0), value.clone());
                pairs.push(pair);
                assert(pairs.deep_view() =~= before.push((field.0@, value@)));
            },
            None => {},
        }
        i += 1;
    }
    assert(all.take(i as int) == all);
    pairs
}

/// There are as many pairs as there are fields with a value.
pub proof fn lemma_emit_len(fields: Seq<Field>)
    ensures
        emit(fields).len() == count_set(fields),
        count_set(fields) <= fields.len(),
    decreases fields.len(),
{
    if fields.len() > 0 {
        lemma_emit_len(fields.drop_last());
    }
}

/// Where every field has a value, there is exactly one pair for each field,
/// at the field's own place, with the field's key and value: none is left
/// out.
pub proof fn lemma_emit_all_set(fields: Seq<Field>)
    requires
        forall|i: int| 0 <= i < fields.len() ==> (#[trigger] fields[i]).1 is Some,
    ensures
        emit(fields).len() == fields.len(),
        forall|i: int|
            0 <= i < fields.len() ==> #[trigger] emit(fields)[i] == (fields[i].0, fields[i].1->0),
    decreases fields.len(),
{
    if fields.len() > 0 {
        let front = fields.drop_last();
        assert forall|i: int| 0 <= i < front.len() implies (#[trigger] front[i]).1 is Some by {
            assert(front[i] == fields[i]);
        }
        lemma_emit_all_set(front);
        assert(fields.last() == fields[fields.len() - 1]);
        assert forall|i: int| 0 <= i < fields.len() implies #[trigger] emit(fields)[i] == (
            fields[i].0,
            fields[i].1->0,
        ) by {
            if i < front.len() {
                assert(emit(fields)[i] == emit(front)[i]);
                assert(front[i] == fields[i]);
            }
        }
    }
}

/// Where no field has a value, there is no pair.
pub proof fn lemma_emit_none_set(fields: Seq<Field>)
    requires
        forall|i: int| 0 <= i < fields.len() ==> (#[trigger] fields[i]).1 is None,
    ensures
        emit(fields) == Seq::<Pair>::empty(),
    decreases fields.len(),
{
    if fields.len() > 0 {
        let front = fields.drop_last();
        assert forall|i: int| 0 <= i < front.len() implies (#[trigger] front[i]).1 is None by {
            assert(front[i] == fields[i]);
        }
        lemma_emit_none_set(front);
        assert(fields.last() == fields[fields.len() - 1]);
    }
}

/// Every pair comes from a field with a value and carries that field's key
/// and value, and the pairs stand in the order of their fields: `origin`
/// names, for each pair, the place of its field.
pub proof fn lemma_emit_order(fields: Seq<Field>) -> (origin: Seq<int>)
    ensures
        origin.len() == emit(fields).len(),
        forall|a: int|
            0 <= a < origin.len() ==> 0 <= #[trigger] origin[a] < fields.len()
                && fields[origin[a]].1 is Some
                && emit(fields)[a] == (fields[origin[a]].0, fields[origin[a]].1->0),
        forall|a: int, b: int| 0 <= a < b < origin.len() ==> origin[a] < origin[b],
    decreases fields.len(),
{
    if fields.len() == 0 {
        Seq::empty()
    } else {
        let front = fields.drop_last();
        let before = lemma_emit_order(front);
        assert forall|a: int| 0 <= a < before.len() implies fields[#[trigger] before[a]]
            == front[before[a]] by {}
        match fields.last().1 {
            Some(value) => before.push(fields.len() - 1),
            None => before,
        }
    }
}

} // verus!
