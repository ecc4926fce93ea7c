//! Small verified text utilities: decimal rendering of integers,
//! parsing of unsigned integers, and splitting on commas. The comma
//! splitting and integer parsing implement the tokenization rules of
//! the parameter normalizer; the decimal rendering backs the XML
//! encoders.

use vstd::prelude::*;
use vstd::string::*;

verus! {

// ---------------------------------------------------------------------
// Decimal rendering
// ---------------------------------------------------------------------

/// The decimal digit character for a value below ten.
pub open spec fn digit_char(n: nat) -> char {
    if n == 0 {
        '0'
    } else if n == 1 {
        '1'
    } else if n == 2 {
        '2'
    } else if n == 3 {
        '3'
    } else if n == 4 {
        '4'
    } else if n == 5 {
        '5'
    } else if n == 6 {
        '6'
    } else if n == 7 {
        '7'
    } else if n == 8 {
        '8'
    } else {
        '9'
    }
}

/// The decimal rendering of `n`, most significant digit first, with no
/// leading zeros (`0` renders as `"0"`).
pub open spec fn dec_digits(n: nat) -> Seq<char>
    decreases n,
{
    if n < 10 {
        seq![digit_char(n)]
    } else {
        dec_digits(n / 10) + seq![digit_char(n % 10)]
    }
}

fn digit_str(d: u64) -> (r: &'static str)
    requires
        d < 10,
    ensures
        r@ == seq![digit_char(d as nat)],
{
    if d == 0 {
        proof {
            reveal_strlit("0");
            assert("0"@ =~= seq![digit_char(0)]);
        }
        "0"
    } else if d == 1 {
        proof {
            reveal_strlit("1");
            assert("1"@ =~= seq![digit_char(1)]);
        }
        "1"
    } else if d == 2 {
        proof {
            reveal_strlit("2");
            assert("2"@ =~= seq![digit_char(2)]);
        }
        "2"
    } else if d == 3 {
        proof {
            reveal_strlit("3");
            assert("3"@ =~= seq![digit_char(3)]);
        }
        "3"
    } else if d == 4 {
        proof {
            reveal_strlit("4");
            assert("4"@ =~= seq![digit_char(4)]);
        }
        "4"
    } else if d == 5 {
        proof {
            reveal_strlit("5");
            assert("5"@ =~= seq![digit_char(5)]);
        }
        "5"
    } else if d == 6 {
        proof {
            reveal_strlit("6");
            assert("6"@ =~= seq![digit_char(6)]);
        }
        "6"
    } else if d == 7 {
        proof {
            reveal_strlit("7");
            assert("7"@ =~= seq![digit_char(7)]);
        }
        "7"
    } else if d == 8 {
        proof {
            reveal_strlit("8");
            assert("8"@ =~= seq![digit_char(8)]);
        }
        "8"
    } else {
        proof {
            reveal_strlit("9");
            assert("9"@ =~= seq![digit_char(9)]);
        }
        "9"
    }
}

/// Renders `n` in decimal.
pub fn u64_to_dec(n: u64) -> (r: String)
    ensures
        r@ == dec_digits(n as nat),
    decreases n,
{
    if n < 10 {
        digit_str(n).to_owned()
    } else {
        let mut s = u64_to_dec(n / 10);
        s.append(digit_str(n % 10));
        s
    }
}

/// Renders `n` in decimal.
pub fn u32_to_dec(n: u32) -> (r: String)
    ensures
        r@ == dec_digits(n as nat),
{
    u64_to_dec(n as u64)
}

// ---------------------------------------------------------------------
// Parsing unsigned integers
// ---------------------------------------------------------------------

/// Whether `c` is a decimal ASCII digit.
pub open spec fn is_dec_digit(c: char) -> bool {
    48 <= c as u32 && c as u32 <= 57
}

/// The value of the digit `c`.
pub open spec fn digit_val(c: char) -> nat {
    (c as u32 - 48) as nat
}

/// The value of a string of digits, most significant first.
pub open spec fn digits_val(s: Seq<char>) -> nat
    decreases s.len(),
{
    if s.len() == 0 {
        0
    } else {
        digits_val(s.drop_last()) * 10 + digit_val(s.last())
    }
}

/// Whether every character of `s` is a decimal digit.
pub open spec fn all_digits(s: Seq<char>) -> bool {
    forall|i: int| 0 <= i < s.len() ==> is_dec_digit(#[trigger] s[i])
}

/// The digit part of a numeric token: everything after an optional
/// leading `+` sign.
pub open spec fn u32_token_digits(s: Seq<char>) -> Seq<char> {
    if s.len() > 0 && s[0] == '+' {
        s.drop_first()
    } else {
        s
    }
}

/// Whether `s` is a well-formed `u32` token: an optional leading `+`,
/// then at least one decimal digit, with a value that fits in a `u32`.
pub open spec fn parseable_u32(s: Seq<char>) -> bool {
    let d = u32_token_digits(s);
    d.len() > 0 && all_digits(d) && digits_val(d) <= u32::MAX
}

/// The value of a well-formed `u32` token.
pub open spec fn parsed_u32(s: Seq<char>) -> u32 {
    digits_val(u32_token_digits(s)) as u32
}

proof fn lemma_digits_val_mono(s: Seq<char>, a: int, b: int, c: int)
    requires
        0 <= a <= b <= c <= s.len(),
    ensures
        digits_val(s.subrange(a, b)) <= digits_val(s.subrange(a, c)),
    decreases c - b,
{
    if b < c {
        lemma_digits_val_mono(s, a, b, c - 1);
        let t = s.subrange(a, c);
        assert(t.drop_last() =~= s.subrange(a, c - 1));
    }
}

/// Parses `s` as a `u32`, accepting an optional leading `+` and decimal
/// digits; returns `None` on an empty digit part, a non-digit character,
/// or a value that does not fit.
pub fn parse_u32(s: &str) -> (r: Option<u32>)
    ensures
        r is Some <==> parseable_u32(s@),
        r is Some ==> r->0 == parsed_u32(s@),
{
    let n = s.unicode_len();
    let mut start: usize = 0;
    if n > 0 && s.get_char(0) == '+' {
        start = 1;
    }
    if start >= n {
        return None;
    }
    let ghost d = u32_token_digits(s@);
    proof {
        if start == 1 {
            assert(d =~= s@.subrange(1, n as int));
        } else {
            assert(d =~= s@.subrange(0, n as int));
        }
    }
    let mut acc: u64 = 0;
    let mut i: usize = start;
    while i < n
        invariant
            start <= i <= n,
            start <= 1,
            n == s@.len(),
            d == u32_token_digits(s@),
            d =~= s@.subrange(start as int, n as int),
            all_digits(s@.subrange(start as int, i as int)),
            acc == digits_val(s@.subrange(start as int, i as int)),
            acc <= u32::MAX,
        decreases n - i,
    {
        let c = s.get_char(i);
        let v = c as u32;
        if v < 48 || v > 57 {
            proof {
                assert(d[i - start] == s@[i as int]);
                assert(!is_dec_digit(d[i - start]));
            }
            return None;
        }
        let d64: u64 = (v - 48) as u64;
        proof {
            let sub1 = s@.subrange(start as int, i + 1);
            assert(sub1.drop_last() =~= s@.subrange(start as int, i as int));
            assert(sub1.last() == s@[i as int]);
            assert(is_dec_digit(s@[i as int]));
        }
        acc = acc * 10 + d64;
        if acc > 0xFFFF_FFFF {
            proof {
                lemma_digits_val_mono(s@, start as int, i + 1, n as int);
                assert(digits_val(d) > u32::MAX);
            }
            return None;
        }
        i += 1;
    }
    proof {
        assert(s@.subrange(start as int, n as int) =~= d);
        assert(parseable_u32(s@));
    }
    Some(acc as u32)
}

// ---------------------------------------------------------------------
// Splitting on commas
// ---------------------------------------------------------------------

/// The index of the first comma of `s`, or `s.len()` if there is none.
pub open spec fn first_comma(s: Seq<char>) -> nat
    decreases s.len(),
{
    if s.len() == 0 {
        0
    } else if s[0] == ',' {
        0
    } else {
        1 + first_comma(s.drop_first())
    }
}

/// `s` split on `,`, keeping empty tokens; joining the tokens with
/// commas again gives back `s` ([`lemma_join_split_roundtrip`]).
pub open spec fn split_commas(s: Seq<char>) -> Seq<Seq<char>>
    decreases s.len(),
{
    let i = first_comma(s);
    if i >= s.len() {
        seq![s]
    } else {
        seq![s.take(i as int)] + split_commas(s.skip(i as int + 1))
    }
}

pub proof fn lemma_first_comma(s: Seq<char>)
    ensures
        first_comma(s) <= s.len(),
        first_comma(s) < s.len() ==> s[first_comma(s) as int] == ',',
        forall|j: int| 0 <= j < first_comma(s) ==> s[j] != ',',
    decreases s.len(),
{
    if s.len() == 0 {
    } else if s[0] == ',' {
    } else {
        lemma_first_comma(s.drop_first());
        assert forall|j: int| 0 <= j < first_comma(s) implies s[j] != ',' by {
            if j > 0 {
                assert(s.drop_first()[j - 1] == s[j]);
            }
        }
        if first_comma(s) < s.len() {
            assert(s.drop_first()[first_comma(s.drop_first()) as int]
                == s[first_comma(s) as int]);
        }
    }
}

proof fn lemma_first_comma_at(s: Seq<char>, i: int)
    requires
        0 <= i <= s.len(),
        forall|j: int| 0 <= j < i ==> s[j] != ',',
        i < s.len() ==> s[i] == ',',
    ensures
        first_comma(s) == i,
    decreases s.len(),
{
    if s.len() == 0 {
    } else if s[0] == ',' {
        assert(i == 0);
    } else {
        assert(i >= 1);
        let t = s.drop_first();
        assert forall|j: int| 0 <= j < i - 1 implies t[j] != ',' by {
            assert(t[j] == s[j + 1]);
        }
        assert(i - 1 < t.len() ==> t[i - 1] == s[i]);
        lemma_first_comma_at(t, i - 1);
    }
}

proof fn lemma_split_nonempty(s: Seq<char>)
    ensures
        split_commas(s).len() >= 1,
    decreases s.len(),
{
    let i = first_comma(s);
    if i < s.len() {
        lemma_split_nonempty(s.skip(i as int + 1));
    }
}

proof fn lemma_join_prepend(t: Seq<char>, xs: Seq<Seq<char>>)
    requires
        xs.len() >= 1,
    ensures
        join_commas(seq![t] + xs) == t + ","@ + join_commas(xs),
    decreases xs.len(),
{
    let whole = seq![t] + xs;
    assert(whole.len() == xs.len() + 1);
    assert(whole.last() == xs.last());
    if xs.len() == 1 {
        assert(whole.drop_last() =~= seq![t]);
        assert(join_commas(whole) == join_commas(seq![t]) + ","@ + xs.last());
        assert(join_commas(seq![t]) == t);
        assert(join_commas(xs) == xs[0]);
        assert(xs.last() == xs[0]);
    } else {
        lemma_join_prepend(t, xs.drop_last());
        assert(whole.drop_last() =~= seq![t] + xs.drop_last());
        assert(join_commas(whole) == t + ","@ + join_commas(xs.drop_last()) + ","@ + xs.last());
        assert(join_commas(xs) == join_commas(xs.drop_last()) + ","@ + xs.last());
        assert(t + ","@ + join_commas(xs.drop_last()) + ","@ + xs.last() =~= t + ","@
            + join_commas(xs));
    }
}

/// Splitting on commas and joining the tokens with commas again gives
/// back the original string: the split loses nothing.
pub proof fn lemma_join_split_roundtrip(s: Seq<char>)
    ensures
        join_commas(split_commas(s)) == s,
    decreases s.len(),
{
    let i = first_comma(s);
    lemma_first_comma(s);
    if i < s.len() {
        let tail = s.skip(i as int + 1);
        lemma_join_split_roundtrip(tail);
        lemma_split_nonempty(tail);
        lemma_join_prepend(s.take(i as int), split_commas(tail));
        reveal_strlit(",");
        assert(","@ =~= seq![',']);
        assert(s =~= s.take(i as int) + seq![','] + tail);
    }
}

/// Splits `s` on commas, keeping empty tokens.
pub fn split_commas_exec(s: &str) -> (r: Vec<String>)
    ensures
        r@.map_values(|t: String| t@) == split_commas(s@),
    decreases s@.len(),
{
    let n = s.unicode_len();
    let mut i: usize = 0;
    while i < n && s.get_char(i) != ','
        invariant
            0 <= i <= n,
            n == s@.len(),
            forall|j: int| 0 <= j < i ==> s@[j] != ',',
        decreases n - i,
    {
        i += 1;
    }
    proof {
        lemma_first_comma_at(s@, i as int);
    }
    if i >= n {
        let mut r: Vec<String> = Vec::new();
        r.push(s.to_owned());
        proof {
            assert(r@.map_values(|t: String| t@) =~= seq![s@]);
        }
        r
    } else {
        let head = s.substring_char(0, i);
        let tail = s.substring_char(i + 1, n);
        proof {
            assert(head@ =~= s@.take(i as int));
            assert(tail@ =~= s@.skip(i + 1));
        }
        let mut r = split_commas_exec(tail);
        r.insert(0, head.to_owned());
        proof {
            assert(r@.map_values(|t: String| t@) =~= seq![s@.take(i as int)]
                + split_commas(s@.skip(i + 1)));
        }
        r
    }
}

// ---------------------------------------------------------------------
// Joining with commas
// ---------------------------------------------------------------------

/// The items joined with a comma between each two.
pub open spec fn join_commas(items: Seq<Seq<char>>) -> Seq<char>
    decreases items.len(),
{
    if items.len() == 0 {
        Seq::empty()
    } else if items.len() == 1 {
        items[0]
    } else {
        join_commas(items.drop_last()) + ","@ + items.last()
    }
}

/// Joins the items with a comma between each two.
pub fn join_commas_exec(items: &Vec<String>) -> (r: String)
    ensures
        r@ == join_commas(items@.map_values(|t: String| t@)),
{
    let ghost iv = items@.map_values(|t: String| t@);
    let mut out = String::new();
    let mut i: usize = 0;
    while i < items.len()
        invariant
            0 <= i <= items.len(),
            iv == items@.map_values(|t: String| t@),
            out@ == join_commas(iv.take(i as int)),
        decreases items.len() - i,
    {
        if i > 0 {
            out.append(",");
        }
        out.append(items[i].as_str());
        proof {
            let t1 = iv.take(i + 1);
            assert(t1.drop_last() =~= iv.take(i as int));
            assert(t1.last() == iv[i as int]);
            if i == 0 {
                assert(join_commas(t1) == iv[0]);
            }
        }
        i += 1;
    }
    proof {
        assert(iv.take(items@.len() as int) =~= iv);
    }
    out
}

// ---------------------------------------------------------------------
// The category tokens that parse
// ---------------------------------------------------------------------

/// The values of the tokens that parse as `u32`, in token order; tokens
/// that do not parse contribute nothing.
pub open spec fn valid_cats(tokens: Seq<Seq<char>>) -> Seq<u32>
    decreases tokens.len(),
{
    if tokens.len() == 0 {
        Seq::empty()
    } else {
        let rest = valid_cats(tokens.drop_last());
        if parseable_u32(tokens.last()) {
            rest.push(parsed_u32(tokens.last()))
        } else {
            rest
        }
    }
}

/// The normalized category list of a raw comma-separated field.
pub open spec fn categories_of(s: Seq<char>) -> Seq<u32> {
    valid_cats(split_commas(s))
}

/// The tokens that parse are kept in their original order and nothing
/// else appears: `valid_cats` is exactly the parseable tokens of the
/// list, filtered in place and mapped to their values.
pub proof fn lemma_valid_cats_filter(tokens: Seq<Seq<char>>)
    ensures
        valid_cats(tokens) == tokens.filter(|t: Seq<char>| parseable_u32(t)).map_values(
            |t: Seq<char>| parsed_u32(t),
        ),
    decreases tokens.len(),
{
    let pred = |t: Seq<char>| parseable_u32(t);
    let f = |t: Seq<char>| parsed_u32(t);
    if tokens.len() == 0 {
        assert(tokens.filter(pred).map_values(f) =~= Seq::<u32>::empty());
    } else {
        lemma_valid_cats_filter(tokens.drop_last());
        reveal_with_fuel(Seq::filter, 2);
        if pred(tokens.last()) {
            assert(tokens.filter(pred) =~= tokens.drop_last().filter(pred).push(tokens.last()));
            assert(tokens.drop_last().filter(pred).push(tokens.last()).map_values(f)
                =~= tokens.drop_last().filter(pred).map_values(f).push(f(tokens.last())));
        } else {
            assert(tokens.filter(pred) =~= tokens.drop_last().filter(pred));
        }
    }
}

} // verus!
