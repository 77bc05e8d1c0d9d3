//! Properties that hold across the library's functions.

use vstd::prelude::*;
use crate::query::{key_value, lookup, query_pairs, rename_key};
use crate::text::{
    all_digits, contains_text, digit_char, digit_value, digits_value, int_text, is_digit,
    join_texts, lemma_split_nonempty, nat_text, occurs_at, parse_int, replace_text, split_text,
};

verus! {

proof fn lemma_nat_text(n: nat)
    ensures
        nat_text(n).len() > 0,
        all_digits(nat_text(n)),
        digits_value(nat_text(n)) == n,
    decreases n,
{
    let d = (n % 10) as nat;
    assert(digit_value(digit_char(d)) == d && is_digit(digit_char(d))) by {
        assert(d < 10);
        if d == 0 {} else if d == 1 {} else if d == 2 {} else if d == 3 {} else if d == 4 {}
        else if d == 5 {} else if d == 6 {} else if d == 7 {} else if d == 8 {} else {}
    }
    if n >= 10 {
        lemma_nat_text(n / 10);
        let t = nat_text(n / 10);
        assert(nat_text(n).drop_last() == t);
        assert(nat_text(n).last() == digit_char(d));
        assert(n == (n / 10) * 10 + d);
        assert(digits_value(nat_text(n)) == digits_value(t) * 10 + digit_value(digit_char(d)));
        assert forall|i: int| 0 <= i < nat_text(n).len() implies is_digit(#[trigger] nat_text(n)[i]) by {
            if i < t.len() {
                assert(nat_text(n)[i] == t[i]);
            }
        }
    } else {
        assert(nat_text(n).drop_last() =~= Seq::<char>::empty());
        assert(nat_text(n).last() == digit_char(d));
        assert(d == n);
        assert(digits_value(Seq::<char>::empty()) == 0);
        assert(digits_value(nat_text(n)) == digits_value(Seq::<char>::empty()) * 10 + digit_value(
            digit_char(d),
        ));
    }
}

/// The decimal text of a number reads back, with `str::parse`, as that
/// number, for every unsigned type wide enough to hold it.
pub proof fn lemma_nat_text_parses(n: nat, max: int)
    requires
        n <= max,
    ensures
        parse_int(nat_text(n), false, 0, max) == Some(n as int),
{
    lemma_nat_text(n);
    assert(is_digit(nat_text(n)[0]));
}

/// The decimal text of an `i32` reads back, with `str::parse::<i32>`, as that
/// number.
pub proof fn lemma_int_text_parses(n: int)
    requires
        i32::MIN <= n <= i32::MAX,
    ensures
        parse_int(int_text(n), true, i32::MIN as int, i32::MAX as int) == Some(n),
{
    if n < 0 {
        let m = (-n) as nat;
        lemma_nat_text(m);
        let s = int_text(n);
        assert(s.drop_first() =~= nat_text(m));
    } else {
        lemma_nat_text(n as nat);
        assert(is_digit(nat_text(n as nat)[0]));
    }
}

/// Replacing a pattern that does not occur leaves the text as it is.
pub proof fn lemma_replace_absent(s: Seq<char>, pat: Seq<char>, rep: Seq<char>)
    requires
        pat.len() > 0,
        !contains_text(s, pat),
    ensures
        replace_text(s, pat, rep) == s,
    decreases s.len(),
{
    if s.len() >= pat.len() {
        assert(!occurs_at(s, pat, 0));
        assert forall|i: int| !occurs_at(s.drop_first(), pat, i) by {
            if occurs_at(s.drop_first(), pat, i) {
                assert(s.subrange(i + 1, i + 1 + pat.len()) =~= s.drop_first().subrange(
                    i,
                    i + pat.len(),
                ));
                assert(occurs_at(s, pat, i + 1));
            }
        }
        lemma_replace_absent(s.drop_first(), pat, rep);
        assert(seq![s[0]] + s.drop_first() =~= s);
    }
}

proof fn lemma_join_prepend(items: Seq<Seq<char>>, p: Seq<char>, sep: Seq<char>)
    requires
        items.len() >= 1,
    ensures
        join_texts(seq![p + items[0]] + items.drop_first(), sep) == p + join_texts(items, sep),
{
    let with = seq![p + items[0]] + items.drop_first();
    assert(with.drop_first() =~= items.drop_first());
    if items.len() > 1 {
        assert((p + items[0]) + sep + join_texts(items.drop_first(), sep) =~= p + (items[0] + sep
            + join_texts(items.drop_first(), sep)));
    }
}

/// Splitting a text at a character and joining the pieces with that
/// character gives the text back.
pub proof fn lemma_split_join(s: Seq<char>, sep: char)
    ensures
        join_texts(split_text(s, sep), seq![sep]) == s,
    decreases s.len(),
{
    if s.len() > 0 {
        let rest = split_text(s.drop_first(), sep);
        lemma_split_join(s.drop_first(), sep);
        lemma_split_nonempty(s.drop_first(), sep);
        if s[0] == sep {
            let whole = seq![Seq::<char>::empty()] + rest;
            assert(whole.drop_first() =~= rest);
            assert(Seq::<char>::empty() + seq![sep] + s.drop_first() =~= s);
        } else {
            lemma_join_prepend(rest, seq![s[0]], seq![sep]);
            assert(seq![s[0]] + s.drop_first() =~= s);
        }
    }
}

/// `c` does not occur in `s`.
pub open spec fn free_of(s: Seq<char>, c: char) -> bool {
    forall|i: int| 0 <= i < s.len() ==> s[i] != c
}

/// Pairs written as a query string: `k=v` joined by `&`.
pub open spec fn query_text(pairs: Seq<(Seq<char>, Seq<char>)>) -> Seq<char> {
    join_texts(
        pairs.map_values(|p: (Seq<char>, Seq<char>)| p.0 + seq!['='] + p.1),
        seq!['&'],
    )
}

pub(crate) proof fn lemma_split_free(a: Seq<char>, sep: char)
    requires
        free_of(a, sep),
    ensures
        split_text(a, sep) == seq![a],
    decreases a.len(),
{
    if a.len() == 0 {
        assert(a =~= Seq::<char>::empty());
    } else {
        assert(free_of(a.drop_first(), sep)) by {
            assert forall|i: int| 0 <= i < a.drop_first().len() implies a.drop_first()[i] != sep by {
                assert(a.drop_first()[i] == a[i + 1]);
            }
        }
        lemma_split_free(a.drop_first(), sep);
        assert(a[0] != sep);
        assert(seq![a[0]] + a.drop_first() =~= a);
        assert(split_text(a, sep) =~= seq![seq![a[0]] + a.drop_first()]);
    }
}

proof fn lemma_split_piece(a: Seq<char>, sep: char, b: Seq<char>)
    requires
        free_of(a, sep),
    ensures
        split_text(a + seq![sep] + b, sep) == seq![a] + split_text(b, sep),
    decreases a.len(),
{
    let s = a + seq![sep] + b;
    if a.len() == 0 {
        assert(a =~= Seq::<char>::empty());
        assert(s.drop_first() =~= b);
    } else {
        assert(s.drop_first() =~= a.drop_first() + seq![sep] + b);
        assert(free_of(a.drop_first(), sep)) by {
            assert forall|i: int| 0 <= i < a.drop_first().len() implies a.drop_first()[i] != sep by {
                assert(a.drop_first()[i] == a[i + 1]);
            }
        }
        lemma_split_piece(a.drop_first(), sep, b);
        assert(a[0] != sep);
        assert(s[0] == a[0]);
        assert(seq![a[0]] + a.drop_first() =~= a);
        assert(split_text(s, sep) =~= seq![seq![a[0]] + a.drop_first()] + split_text(b, sep));
    }
}

pub(crate) proof fn lemma_key_value(k: Seq<char>, v: Seq<char>)
    requires
        free_of(k, '='),
    ensures
        key_value(k + seq!['='] + v) == (k, v),
    decreases k.len(),
{
    let s = k + seq!['='] + v;
    if k.len() == 0 {
        assert(s.drop_first() =~= v);
    } else {
        assert(s.drop_first() =~= k.drop_first() + seq!['='] + v);
        assert(free_of(k.drop_first(), '=')) by {
            assert forall|i: int| 0 <= i < k.drop_first().len() implies k.drop_first()[i] != '=' by {
                assert(k.drop_first()[i] == k[i + 1]);
            }
        }
        assert(s[0] == k[0] && k[0] != '=');
        lemma_key_value(k.drop_first(), v);
        assert(seq![k[0]] + k.drop_first() =~= k);
    }
}

/// Pairs written as `k=v&k=v..` read back as the same pairs, when no key
/// holds `&` or `=` and no value holds `&`.
pub proof fn lemma_query_round_trip(pairs: Seq<(Seq<char>, Seq<char>)>)
    requires
        pairs.len() > 0,
        forall|i: int|
            0 <= i < pairs.len() ==> free_of(#[trigger] pairs[i].0, '&') && free_of(pairs[i].0, '=')
                && free_of(pairs[i].1, '&'),
    ensures
        query_pairs(query_text(pairs)) == pairs,
    decreases pairs.len(),
{
    let p = pairs[0];
    let piece = p.0 + seq!['='] + p.1;
    lemma_key_value(p.0, p.1);
    assert(free_of(piece, '&'));
    let pieces = pairs.map_values(|q: (Seq<char>, Seq<char>)| q.0 + seq!['='] + q.1);
    if pairs.len() == 1 {
        lemma_split_free(piece, '&');
        assert(query_pairs(query_text(pairs)) =~= pairs);
    } else {
        let rest = pairs.drop_first();
        lemma_query_round_trip(rest);
        assert(pieces.drop_first() =~= rest.map_values(
            |q: (Seq<char>, Seq<char>)| q.0 + seq!['='] + q.1,
        ));
        assert(query_text(pairs) == piece + seq!['&'] + query_text(rest));
        lemma_split_piece(piece, '&', query_text(rest));
        assert(query_pairs(query_text(pairs)) =~= seq![key_value(piece)] + query_pairs(query_text(rest)));
        assert(seq![p] + rest =~= pairs);
    }
}

/// After renaming key `old` to `new` in pairs that had no key `new`, the
/// value found under `new` is the one that was under `old`.
pub proof fn lemma_rename_lookup(
    q: Seq<(Seq<char>, Seq<char>)>,
    old: Seq<char>,
    new: Seq<char>,
)
    requires
        lookup(q, new) is None || old == new,
    ensures
        lookup(rename_key(q, old, new), new) == lookup(q, old),
    decreases q.len(),
{
    if q.len() > 0 {
        let r = rename_key(q, old, new);
        assert(r.drop_first() =~= rename_key(q.drop_first(), old, new));
        lemma_rename_lookup(q.drop_first(), old, new);
    }
}

/// Splitting at a separator distributes over a text joined by that separator.
pub(crate) proof fn lemma_split_concat(a: Seq<char>, sep: char, b: Seq<char>)
    ensures
        split_text(a + seq![sep] + b, sep) == split_text(a, sep) + split_text(b, sep),
    decreases a.len(),
{
    let s = a + seq![sep] + b;
    if a.len() == 0 {
        assert(a =~= Seq::<char>::empty());
        assert(s.drop_first() =~= b);
        assert(split_text(s, sep) =~= split_text(a, sep) + split_text(b, sep));
    } else {
        assert(s.drop_first() =~= a.drop_first() + seq![sep] + b);
        lemma_split_concat(a.drop_first(), sep, b);
        lemma_split_nonempty(a.drop_first(), sep);
        assert(s[0] == a[0]);
        let ra = split_text(a.drop_first(), sep);
        let rb = split_text(b, sep);
        assert((ra + rb)[0] == ra[0]);
        assert((ra + rb).drop_first() =~= ra.drop_first() + rb);
        assert(split_text(s, sep) =~= split_text(a, sep) + split_text(b, sep));
    }
}

/// No piece of a split holds the separator.
pub(crate) proof fn lemma_split_pieces_free(s: Seq<char>, sep: char)
    ensures
        forall|i: int| 0 <= i < split_text(s, sep).len() ==> free_of(#[trigger] split_text(s, sep)[i], sep),
    decreases s.len(),
{
    if s.len() > 0 {
        let rest = split_text(s.drop_first(), sep);
        lemma_split_pieces_free(s.drop_first(), sep);
        lemma_split_nonempty(s.drop_first(), sep);
        if s[0] != sep {
            let first = seq![s[0]] + rest[0];
            assert(free_of(rest[0], sep));
            assert forall|j: int| 0 <= j < first.len() implies first[j] != sep by {
                if j > 0 {
                    assert(first[j] == rest[0][j - 1]);
                }
            }
            assert forall|i: int| 0 <= i < split_text(s, sep).len() implies free_of(
                #[trigger] split_text(s, sep)[i],
                sep,
            ) by {
                if i > 0 {
                    assert(split_text(s, sep)[i] == rest[i]);
                }
            }
        } else {
            assert forall|i: int| 0 <= i < split_text(s, sep).len() implies free_of(
                #[trigger] split_text(s, sep)[i],
                sep,
            ) by {
                if i > 0 {
                    assert(split_text(s, sep)[i] == rest[i - 1]);
                }
            }
        }
    }
}

/// The key and the value of a piece free of `c` are free of `c`.
pub(crate) proof fn lemma_key_value_free(piece: Seq<char>, c: char)
    requires
        free_of(piece, c),
    ensures
        free_of(key_value(piece).0, c),
        free_of(key_value(piece).1, c),
    decreases piece.len(),
{
    if piece.len() > 0 {
        assert(free_of(piece.drop_first(), c)) by {
            assert forall|i: int| 0 <= i < piece.drop_first().len() implies piece.drop_first()[i] != c by {
                assert(piece.drop_first()[i] == piece[i + 1]);
            }
        }
        lemma_key_value_free(piece.drop_first(), c);
        if piece[0] != '=' {
            let kv = key_value(piece.drop_first());
            let k = seq![piece[0]] + kv.0;
            assert forall|j: int| 0 <= j < k.len() implies k[j] != c by {
                if j > 0 {
                    assert(k[j] == kv.0[j - 1]);
                }
            }
        }
    }
}

/// No key or value read from a query string holds `&`.
pub(crate) proof fn lemma_query_pairs_free(s: Seq<char>)
    ensures
        forall|i: int|
            0 <= i < query_pairs(s).len() ==> free_of(#[trigger] query_pairs(s)[i].0, '&') && free_of(
                query_pairs(s)[i].1,
                '&',
            ),
{
    lemma_split_pieces_free(s, '&');
    assert forall|i: int| 0 <= i < query_pairs(s).len() implies free_of(
        #[trigger] query_pairs(s)[i].0,
        '&',
    ) && free_of(query_pairs(s)[i].1, '&') by {
        lemma_key_value_free(split_text(s, '&')[i], '&');
    }
}

/// A value found among pairs whose values are free of `c` is free of `c`.
pub(crate) proof fn lemma_lookup_free(pairs: Seq<(Seq<char>, Seq<char>)>, k: Seq<char>, c: char)
    requires
        forall|i: int| 0 <= i < pairs.len() ==> free_of(#[trigger] pairs[i].1, c),
    ensures
        lookup(pairs, k) matches Some(v) ==> free_of(v, c),
    decreases pairs.len(),
{
    if pairs.len() > 0 {
        assert forall|i: int| 0 <= i < pairs.drop_first().len() implies free_of(
            #[trigger] pairs.drop_first()[i].1,
            c,
        ) by {
            assert(pairs.drop_first()[i] == pairs[i + 1]);
        }
        lemma_lookup_free(pairs.drop_first(), k, c);
    }
}

/// The value a query string holds under a key holds no `&`.
pub(crate) proof fn lemma_query_value_free(s: Seq<char>, k: Seq<char>)
    ensures
        lookup(query_pairs(s), k) matches Some(v) ==> free_of(v, '&'),
{
    lemma_query_pairs_free(s);
    assert forall|i: int| 0 <= i < query_pairs(s).len() implies free_of(
        #[trigger] query_pairs(s)[i].1,
        '&',
    ) by {
        assert(free_of(query_pairs(s)[i].0, '&'));
    }
    lemma_lookup_free(query_pairs(s), k, '&');
}

/// Reading `a&b` gives the pairs of `a` and then those of `b`.
pub(crate) proof fn lemma_query_pairs_concat(a: Seq<char>, b: Seq<char>)
    ensures
        query_pairs(a + seq!['&'] + b) == query_pairs(a) + query_pairs(b),
{
    lemma_split_concat(a, '&', b);
    assert(query_pairs(a + seq!['&'] + b) =~= query_pairs(a) + query_pairs(b));
}

/// Reading `k=v` gives the one pair `(k, v)`.
pub(crate) proof fn lemma_query_pairs_single(k: Seq<char>, v: Seq<char>)
    requires
        free_of(k, '&'),
        free_of(k, '='),
        free_of(v, '&'),
    ensures
        query_pairs(k + seq!['='] + v) == seq![(k, v)],
{
    let piece = k + seq!['='] + v;
    assert(free_of(piece, '&')) by {
        assert forall|i: int| 0 <= i < piece.len() implies piece[i] != '&' by {
            if i < k.len() {
                assert(piece[i] == k[i]);
            } else if i > k.len() {
                assert(piece[i] == v[i - k.len() - 1]);
            }
        }
    }
    lemma_split_free(piece, '&');
    lemma_key_value(k, v);
    assert(query_pairs(piece) =~= seq![(k, v)]);
}

} // verus!
