//! Derivation of the key under which a flight is cached.

use vstd::prelude::*;

verus! {

/// The character that parts the flight number from the date in a key.
pub open spec fn delimiter() -> char {
    '*'
}

/// The cache key of a flight number and a date: the number, the delimiter,
/// the date.
pub open spec fn cache_key_of(number: Seq<char>, date: Seq<char>) -> Seq<char> {
    number + seq![delimiter()] + date
}

/// Whether `s` holds the delimiter nowhere.
pub open spec fn delimiter_free(s: Seq<char>) -> bool {
    forall|i: int| 0 <= i < s.len() ==> s[i] != delimiter()
}

/// Derives the cache key of `(number, date)`. The key depends on the pair
/// alone, so every call on the same pair gives the same key.
pub fn cache_key(number: &str, date: &str) -> (key: String)
    ensures
        key@ == cache_key_of(number@, date@),
{
    let mut key = String::from_str(number);
    proof {
        reveal_strlit("*");
        assert("*"@ =~= seq![delimiter()]);
    }
    key.append("*");
    key.append(date);
    key
}

/// Two pairs whose flight numbers hold no delimiter share a key only when
/// they are the same pair.
pub proof fn lemma_cache_key_injective(
    number_a: Seq<char>,
    date_a: Seq<char>,
    number_b: Seq<char>,
    date_b: Seq<char>,
)
    requires
        delimiter_free(number_a),
        delimiter_free(number_b),
        cache_key_of(number_a, date_a) == cache_key_of(number_b, date_b),
    ensures
        number_a == number_b,
        date_a == date_b,
{
    let key_a = cache_key_of(number_a, date_a);
    let key_b = cache_key_of(number_b, date_b);
    let la = number_a.len() as int;
    let lb = number_b.len() as int;
    assert(key_a[la] == delimiter());
    assert(key_b[lb] == delimiter());
    if la < lb {
        assert(key_b[la] == number_b[la]);
    }
    if lb < la {
        assert(key_a[lb] == number_a[lb]);
    }
    assert(la == lb);
    assert forall|i: int| 0 <= i < la implies number_a[i] == number_b[i] by {
        assert(key_a[i] == number_a[i]);
        assert(key_b[i] == number_b[i]);
    }
    assert(number_a =~= number_b);
    assert(key_a.len() == key_b.len());
    assert forall|i: int| 0 <= i < date_a.len() implies date_a[i] == date_b[i] by {
        assert(key_a[la + 1 + i] == date_a[i]);
        assert(key_b[lb + 1 + i] == date_b[i]);
    }
    assert(date_a =~= date_b);
}

/// Among pairs whose flight numbers hold no delimiter, equal pairs have
/// equal keys and no others do.
pub proof fn lemma_cache_key_parts_pairs(
    number_a: Seq<char>,
    date_a: Seq<char>,
    number_b: Seq<char>,
    date_b: Seq<char>,
)
    requires
        delimiter_free(number_a),
        delimiter_free(number_b),
    ensures
        cache_key_of(number_a, date_a) == cache_key_of(number_b, date_b) <==> (number_a == number_b
            && date_a == date_b),
{
    if cache_key_of(number_a, date_a) == cache_key_of(number_b, date_b) {
        lemma_cache_key_injective(number_a, date_a, number_b, date_b);
    }
}

} // verus!
