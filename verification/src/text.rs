//! Rendering of plain values as query-string text.

use vstd::prelude::*;

verus! {

/// The character that writes the decimal digit `d`.
pub open spec fn digit_char(d: int) -> char
    recommends
        0 <= d <= 9,
{
    if d == 0 {
        '0'
    } else if d == 1 {
        '1'
    } else if d == 2 {
        '2'
    } else if d == 3 {
        '3'
    } else if d == 4 {
        '4'
    } else if d == 5 {
        '5'
    } else if d == 6 {
        '6'
    } else if d == 7 {
        '7'
    } else if d == 8 {
        '8'
    } else {
        '9'
    }
}

/// The decimal numeral of `n`: most significant digit first, no sign, no
/// leading zero, and `"0"` for zero.
pub open spec fn decimal(n: nat) -> Seq<char>
    decreases n,
{
    if n < 10 {
        seq![digit_char(n as int)]
    } else {
        decimal(n / 10).push(digit_char((n % 10) as int))
    }
}

/// The one-character text of a decimal digit.
fn digit_text(d: u32) -> (r: &'static str)
    requires
        d <= 9,
    ensures
        r@ == seq![digit_char(d as int)],
{
    proof {
        reveal_strlit("0");
        reveal_strlit("1");
        reveal_strlit("2");
        reveal_strlit("3");
        reveal_strlit("4");
        reveal_strlit("5");
        reveal_strlit("6");
        reveal_strlit("7");
        reveal_strlit("8");
        reveal_strlit("9");
    }
    let r = if d == 0 {
        "0"
    } else if d == 1 {
        "1"
    } else if d == 2 {
        "2"
    } else if d == 3 {
        "3"
    } else if d == 4 {
        "4"
    } else if d == 5 {
        "5"
    } else if d == 6 {
        "6"
    } else if d == 7 {
        "7"
    } else if d == 8 {
        "8"
    } else {
        "9"
    };
    assert(r@ =~= seq![digit_char(d as int)]);
    r
}

/// Renders `n` in decimal.
pub fn u32_to_decimal(n: u32) -> (s: String)
    ensures
        s@ == decimal(n as nat),
    decreases n,
{
    if n < 10 {
        String::from_str(digit_text(n))
    } else {
        let mut s = u32_to_decimal(n / 10);
        s.append(digit_text(n % 10));
        s
    }
}

/// The text of a truth value: `"true"` or `"false"`.
pub open spec fn bool_text(b: bool) -> Seq<char> {
    if b {
        "true"@
    } else {
        "false"@
    }
}

/// Renders a truth value as `"true"` or `"false"`.
pub fn bool_to_text(b: bool) -> (s: String)
    ensures
        s@ == bool_text(b),
{
    if b {
        String::from_str("true")
    } else {
        String::from_str("false")
    }
}

/// The parts written one after the other with `sep` between neighbours:
/// nothing before the first part and nothing after the last, and the empty
/// text for no parts.
pub open spec fn join(parts: Seq<Seq<char>>, sep: Seq<char>) -> Seq<char>
    decreases parts.len(),
{
    if parts.len() == 0 {
        Seq::empty()
    } else if parts.len() == 1 {
        parts[0]
    } else {
        join(parts.drop_last(), sep) + sep + parts.last()
    }
}

/// Joins texts with `sep` between neighbours.
pub fn join_texts(parts: &Vec<&str>, sep: &str) -> (s: String)
    ensures
        s@ == join(parts.deep_view(), sep@),
{
    let ghost all = parts.deep_view();
    let mut s = String::new();
    let mut i: usize = 0;
    while i < parts.len()
        invariant
            i <= parts.len(),
            all == parts.deep_view(),
            s@ == join(all.take(i as int), sep@),
        decreases parts.len() - i,
    {
        proof {
            assert(all.take(i + 1).drop_last() == all.take(i as int));
            assert(all.take(i + 1).last() == parts[i as int]@);
        }
        if i > 0 {
            s.append(sep);
        }
        s.append(parts[i]);
        proof {
            if i == 0 {
                assert(s@ == parts[i as int]@);
                assert(all.take(1)[0] == parts[i as int]@);
            }
        }
        i += 1;
    }
    assert(all.take(i as int) == all);
    s
}

/// What lets a part be found again in a joined text: it has at least one
/// character, and none of them is the separator.
pub open spec fn free_of(part: Seq<char>, sep: char) -> bool {
    part.len() > 0 && forall|i: int| 0 <= i < part.len() ==> part[i] != sep
}

/// Whether every part is free of the separator.
pub open spec fn all_free_of(parts: Seq<Seq<char>>, sep: char) -> bool {
    forall|i: int| 0 <= i < parts.len() ==> free_of(#[trigger] parts[i], sep)
}

/// Parts that are free of the separator join to a text that is empty only
/// for no parts.
pub proof fn lemma_join_len(parts: Seq<Seq<char>>, sep: char)
    requires
        all_free_of(parts, sep),
    ensures
        parts.len() > 0 ==> join(parts, seq![sep]).len() > 0,
    decreases parts.len(),
{
    if parts.len() == 1 {
        assert(free_of(parts[0], sep));
    } else if parts.len() > 1 {
        assert(free_of(parts.last(), sep));
    }
}

/// Two texts that end in a separator and a part free of it are equal only if
/// what stands before the separator is equal, and the parts are.
pub proof fn lemma_last_part(
    before: Seq<char>,
    part: Seq<char>,
    other_before: Seq<char>,
    other_part: Seq<char>,
    sep: char,
)
    requires
        free_of(part, sep),
        free_of(other_part, sep),
        before + seq![sep] + part == other_before + seq![sep] + other_part,
    ensures
        before == other_before,
        part == other_part,
{
    let left = before + seq![sep] + part;
    let right = other_before + seq![sep] + other_part;
    assert(left.len() == before.len() + 1 + part.len());
    assert(right.len() == other_before.len() + 1 + other_part.len());
    if before.len() < other_before.len() {
        let at = other_before.len() as int;
        assert(right[at] == sep);
        assert(left[at] == part[at - before.len() - 1]);
    } else if before.len() > other_before.len() {
        let at = before.len() as int;
        assert(left[at] == sep);
        assert(right[at] == other_part[at - other_before.len() - 1]);
    } else {
        assert forall|i: int| 0 <= i < before.len() implies before[i] == other_before[i] by {
            assert(left[i] == before[i]);
            assert(right[i] == other_before[i]);
        }
        assert(before =~= other_before);
        assert forall|i: int| 0 <= i < part.len() implies part[i] == other_part[i] by {
            assert(left[before.len() + 1 + i] == part[i]);
            assert(right[before.len() + 1 + i] == other_part[i]);
        }
        assert(part =~= other_part);
    }
}

/// A joined text can be read in one way only: lists of parts that are free
/// of the separator join to the same text only if they are the same list.
pub proof fn lemma_join_is_unambiguous(a: Seq<Seq<char>>, b: Seq<Seq<char>>, sep: char)
    requires
        all_free_of(a, sep),
        all_free_of(b, sep),
        join(a, seq![sep]) == join(b, seq![sep]),
    ensures
        a == b,
    decreases a.len(),
{
    let s = seq![sep];
    lemma_join_len(a, sep);
    lemma_join_len(b, sep);
    if a.len() == 0 || b.len() == 0 {
        assert(a =~= b);
    } else if a.len() == 1 && b.len() == 1 {
        assert(a =~= b);
    } else if a.len() == 1 {
        let at = join(b.drop_last(), s).len() as int;
        assert(free_of(a[0], sep));
        assert(join(b, s)[at] == sep);
    } else if b.len() == 1 {
        let at = join(a.drop_last(), s).len() as int;
        assert(free_of(b[0], sep));
        assert(join(a, s)[at] == sep);
    } else {
        let a_front = a.drop_last();
        let b_front = b.drop_last();
        assert(free_of(a.last(), sep));
        assert(free_of(b.last(), sep));
        lemma_last_part(join(a_front, s), a.last(), join(b_front, s), b.last(), sep);
        assert forall|i: int| 0 <= i < a_front.len() implies free_of(
            #[trigger] a_front[i],
            sep,
        ) by {
            assert(a_front[i] == a[i]);
        }
        assert forall|i: int| 0 <= i < b_front.len() implies free_of(
            #[trigger] b_front[i],
            sep,
        ) by {
            assert(b_front[i] == b[i]);
        }
        lemma_join_is_unambiguous(a_front, b_front, sep);
        assert(a =~= a_front.push(a.last()));
        assert(b =~= b_front.push(b.last()));
    }
}

} // verus!
