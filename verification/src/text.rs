//! Character-level helpers shared by the configuration resolvers: token
//! recognition that ignores ASCII case, and parsing of unsigned decimals.

use vstd::prelude::*;

verus! {

/// The characters of `s`, in order.
pub fn chars_of(s: &str) -> (v: Vec<char>)
    ensures
        v@ == s@,
{
    let mut v: Vec<char> = Vec::new();
    for c in it: s.chars()
        invariant
            v@ == it.seq().take(it.index() as int),
    {
        v.push(c);
    }
    v
}

/// Whether two pieces of text hold the same characters.
pub fn same_text(a: &str, b: &str) -> (same: bool)
    ensures
        same == (a@ == b@),
{
    let left = chars_of(a);
    let right = chars_of(b);
    if left.len() != right.len() {
        return false;
    }
    let mut i: usize = 0;
    while i < left.len()
        invariant
            i <= left.len(),
            left.len() == right.len(),
            left@ == a@,
            right@ == b@,
            forall|j: int| 0 <= j < i ==> left@[j] == right@[j],
        decreases left.len() - i,
    {
        if left[i] != right[i] {
            return false;
        }
        i += 1;
    }
    assert(left@ =~= right@);
    true
}

/// `c` with an ASCII lower-case letter replaced by its upper-case form.
pub open spec fn ascii_upper(c: char) -> char {
    if 'a' <= c && c <= 'z' {
        ((c as u8) - 32) as char
    } else {
        c
    }
}

/// Computes [`ascii_upper`].
pub fn to_ascii_upper(c: char) -> (u: char)
    ensures
        u == ascii_upper(c),
{
    if 'a' <= c && c <= 'z' {
        let b: u8 = c as u8;
        (b - 32) as char
    } else {
        c
    }
}

/// `token` stands in `text` at offset `at`, ASCII case ignored.
pub open spec fn matches_at(text: Seq<char>, token: Seq<char>, at: int) -> bool {
    &&& 0 <= at
    &&& at + token.len() <= text.len()
    &&& forall|j: int|
        0 <= j < token.len() ==> ascii_upper(text[at + j]) == ascii_upper(#[trigger] token[j])
}

/// `token` occurs somewhere in `text`, ASCII case ignored.
pub open spec fn contains_ignore_case(text: Seq<char>, token: Seq<char>) -> bool {
    exists|at: int| matches_at(text, token, at)
}

/// `s` with every ASCII lower-case letter replaced by its upper-case form.
pub open spec fn ascii_upper_text(s: Seq<char>) -> Seq<char> {
    Seq::new(s.len(), |i: int| ascii_upper(s[i]))
}

/// Whether a token stands at an offset depends neither on the case of the
/// letters of the text nor on that of the letters of the token.
pub proof fn lemma_match_ignores_case(text: Seq<char>, token: Seq<char>, at: int)
    ensures
        matches_at(ascii_upper_text(text), token, at) == matches_at(text, token, at),
        matches_at(text, ascii_upper_text(token), at) == matches_at(text, token, at),
{
    let upper_text = ascii_upper_text(text);
    let upper_token = ascii_upper_text(token);
    if 0 <= at && at + token.len() <= text.len() {
        assert forall|j: int| 0 <= j < token.len() implies ascii_upper(upper_text[at + j])
            == ascii_upper(text[at + j]) && ascii_upper(#[trigger] upper_token[j]) == ascii_upper(
            token[j],
        ) by {}
        assert forall|j: int| 0 <= j < token.len() implies ascii_upper(upper_text[at + j])
            == ascii_upper(text[at + j]) && ascii_upper(upper_token[j]) == ascii_upper(
            #[trigger] token[j],
        ) by {}
    }
}

/// Whether a token is found depends neither on the case of the letters of
/// the text nor on that of the letters of the token.
pub proof fn lemma_case_is_ignored(text: Seq<char>, token: Seq<char>)
    ensures
        contains_ignore_case(ascii_upper_text(text), token) == contains_ignore_case(text, token),
        contains_ignore_case(text, ascii_upper_text(token)) == contains_ignore_case(text, token),
{
    assert forall|at: int|
        matches_at(ascii_upper_text(text), token, at) == #[trigger] matches_at(text, token, at)
            && matches_at(text, ascii_upper_text(token), at) == matches_at(text, token, at) by {
        lemma_match_ignores_case(text, token, at);
    }
    if contains_ignore_case(ascii_upper_text(text), token) {
        lemma_match_ignores_case(
            text,
            token,
            choose|at: int| matches_at(ascii_upper_text(text), token, at),
        );
    }
    if contains_ignore_case(text, ascii_upper_text(token)) {
        lemma_match_ignores_case(
            text,
            token,
            choose|at: int| matches_at(text, ascii_upper_text(token), at),
        );
    }
}

/// A token that stands in the text letter for letter is found.
pub proof fn lemma_exact_occurrence_is_found(text: Seq<char>, token: Seq<char>, at: int)
    requires
        0 <= at,
        at + token.len() <= text.len(),
        text.subrange(at, at + token.len()) == token,
    ensures
        contains_ignore_case(text, token),
{
    assert forall|j: int| 0 <= j < token.len() implies text[at + j] == #[trigger] token[j] by {
        assert(text.subrange(at, at + token.len())[j] == text[at + j]);
    }
    assert(matches_at(text, token, at));
}

/// Decides [`matches_at`] for one offset.
fn token_at(text: &Vec<char>, token: &Vec<char>, at: usize) -> (found: bool)
    requires
        at + token.len() <= text.len(),
    ensures
        found == matches_at(text@, token@, at as int),
{
    let mut j: usize = 0;
    while j < token.len()
        invariant
            j <= token.len(),
            at + token.len() <= text.len(),
            forall|k: int|
                0 <= k < j ==> ascii_upper(text@[at + k]) == ascii_upper(#[trigger] token@[k]),
        decreases token.len() - j,
    {
        if to_ascii_upper(text[at + j]) != to_ascii_upper(token[j]) {
            return false;
        }
        j += 1;
    }
    true
}

/// Whether `token` occurs in `text`, ASCII case ignored.
pub fn contains_token(text: &str, token: &str) -> (found: bool)
    ensures
        found == contains_ignore_case(text@, token@),
{
    let hay = chars_of(text);
    let needle = chars_of(token);
    if needle.len() > hay.len() {
        return false;
    }
    let last: usize = hay.len() - needle.len();
    let mut at: usize = 0;
    while at <= last
        invariant
            at <= last + 1,
            last == hay.len() - needle.len(),
            needle.len() <= hay.len(),
            hay@ == text@,
            needle@ == token@,
            forall|k: int| 0 <= k < at ==> !matches_at(text@, token@, k),
        decreases last + 1 - at,
    {
        if token_at(&hay, &needle, at) {
            return true;
        }
        at += 1;
    }
    false
}

/// `c` is one of the ten decimal digits.
pub open spec fn is_digit(c: char) -> bool {
    '0' <= c && c <= '9'
}

/// The number that a decimal digit stands for.
pub open spec fn digit_value(c: char) -> nat {
    (c as nat - '0' as nat) as nat
}

/// Every character of `s` is a decimal digit.
pub open spec fn all_digits(s: Seq<char>) -> bool {
    forall|i: int| 0 <= i < s.len() ==> is_digit(#[trigger] s[i])
}

/// The number written by a run of decimal digits, most significant first.
pub open spec fn decimal_value(digits: Seq<char>) -> nat
    decreases digits.len(),
{
    if digits.len() == 0 {
        0
    } else {
        decimal_value(digits.drop_last()) * 10 + digit_value(digits.last())
    }
}

/// `s` without one leading plus sign, if it has one.
pub open spec fn without_sign(s: Seq<char>) -> Seq<char> {
    if s.len() > 0 && s[0] == '+' {
        s.subrange(1, s.len() as int)
    } else {
        s
    }
}

/// The unsigned number that `s` writes, if it writes one no greater than
/// `max`: an optional plus sign, then one or more decimal digits and nothing
/// else.
pub open spec fn parse_unsigned(s: Seq<char>, max: nat) -> Option<nat> {
    let digits = without_sign(s);
    if digits.len() > 0 && all_digits(digits) && decimal_value(digits) <= max {
        Some(decimal_value(digits))
    } else {
        None
    }
}

/// Reading more digits never makes the number smaller.
pub proof fn lemma_decimal_value_prefix(digits: Seq<char>, k: int)
    requires
        0 <= k <= digits.len(),
    ensures
        decimal_value(digits.take(k)) <= decimal_value(digits),
    decreases digits.len(),
{
    if k < digits.len() {
        assert(digits.drop_last().take(k) =~= digits.take(k));
        lemma_decimal_value_prefix(digits.drop_last(), k);
    } else {
        assert(digits.take(k) =~= digits);
    }
}

/// Text that writes an unsigned number holds a plus sign or digits only.
pub proof fn lemma_unsigned_chars(s: Seq<char>, max: nat, k: int)
    requires
        parse_unsigned(s, max).is_some(),
        0 <= k < s.len(),
    ensures
        is_digit(s[k]) || (k == 0 && s[k] == '+'),
{
    if s[0] == '+' && k > 0 {
        assert(without_sign(s)[k - 1] == s[k]);
    }
}

/// A machine number as a natural number.
pub open spec fn widen(n: Option<usize>) -> Option<nat> {
    match n {
        Some(n) => Some(n as nat),
        None => None,
    }
}

/// Parses the characters of `s` from `from` up to `to` as a run of decimal
/// digits.
fn parse_digits(s: &Vec<char>, from: usize, to: usize) -> (r: Option<usize>)
    requires
        from <= to <= s.len(),
    ensures
        r.is_some() == (from < to && all_digits(s@.subrange(from as int, to as int))
            && decimal_value(s@.subrange(from as int, to as int)) <= usize::MAX),
        r matches Some(n) ==> n == decimal_value(s@.subrange(from as int, to as int)),
{
    let ghost digits = s@.subrange(from as int, to as int);
    if from == to {
        return None;
    }
    let mut acc: usize = 0;
    let mut i: usize = from;
    while i < to
        invariant
            from <= i <= to <= s.len(),
            digits == s@.subrange(from as int, to as int),
            all_digits(digits.take(i - from)),
            acc == decimal_value(digits.take(i - from)),
        decreases to - i,
    {
        let c = s[i];
        let ghost next = digits.take(i - from + 1);
        proof {
            assert(next.drop_last() =~= digits.take(i - from));
            lemma_decimal_value_prefix(digits, i - from + 1);
        }
        if !('0' <= c && c <= '9') {
            return None;
        }
        let d: usize = (c as u8 - 48) as usize;
        if acc > (usize::MAX - d) / 10 {
            return None;
        }
        acc = acc * 10 + d;
        assert(all_digits(next)) by {
            assert forall|j: int| 0 <= j < next.len() - 1 implies is_digit(#[trigger] next[j]) by {
                assert(next[j] == digits.take(i - from)[j]);
            }
        }
        i += 1;
    }
    assert(digits.take(i - from) =~= digits);
    Some(acc)
}

/// Parses the characters of `s` from `from` up to `to` as an unsigned
/// decimal: an optional plus sign, then digits.
pub fn parse_unsigned_in(s: &Vec<char>, from: usize, to: usize) -> (r: Option<usize>)
    requires
        from <= to <= s.len(),
    ensures
        widen(r) == parse_unsigned(s@.subrange(from as int, to as int), usize::MAX as nat),
{
    let start: usize = if from < to && s[from] == '+' {
        from + 1
    } else {
        from
    };
    assert(s@.subrange(start as int, to as int) =~= without_sign(
        s@.subrange(from as int, to as int),
    ));
    parse_digits(s, start, to)
}

/// Parses an unsigned decimal: an optional plus sign, then digits.
pub fn parse_usize(s: &str) -> (r: Option<usize>)
    ensures
        widen(r) == parse_unsigned(s@, usize::MAX as nat),
{
    let chars = chars_of(s);
    assert(chars@.subrange(0, chars.len() as int) =~= s@);
    parse_unsigned_in(&chars, 0, chars.len())
}

} // verus!
