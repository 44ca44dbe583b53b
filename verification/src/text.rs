//! Reading text: lines, tokens and numbers.
//!
//! A line is split into tokens at white space. A token is read as a boolean
//! (`true` or `false`), as an unsigned integer in decimal digits with an
//! optional leading `+`, or as a scalar in plain decimal notation: an
//! optional sign, digits, and an optional point followed by digits, with at
//! least one digit in all. Digits of a scalar beyond the ninth decimal place
//! are checked and dropped, and a scalar beyond the representable range is
//! read as the nearest end of it.

use vstd::prelude::*;
use vstd::string::*;
use crate::scalar::{saturate, Scalar, SCALE};

verus! {

/// Whether `c` is white space: one of the characters that Unicode marks
/// `White_Space`.
pub open spec fn spec_is_space(c: char) -> bool {
    let n = c as u32;
    (9 <= n <= 13) || n == 0x20 || n == 0x85 || n == 0xA0 || n == 0x1680 || (0x2000 <= n
        <= 0x200A) || n == 0x2028 || n == 0x2029 || n == 0x202F || n == 0x205F || n == 0x3000
}

/// Whether `c` is white space.
#[verifier::when_used_as_spec(spec_is_space)]
pub fn is_space(c: char) -> (r: bool)
    ensures
        r == spec_is_space(c),
{
    let n = c as u32;
    (9 <= n && n <= 13) || n == 0x20 || n == 0x85 || n == 0xA0 || n == 0x1680 || (0x2000 <= n
        && n <= 0x200A) || n == 0x2028 || n == 0x2029 || n == 0x202F || n == 0x205F || n
        == 0x3000
}

/// Whether `c` is a decimal digit.
pub open spec fn spec_is_digit(c: char) -> bool {
    '0' <= c <= '9'
}

/// Whether `c` is a decimal digit.
#[verifier::when_used_as_spec(spec_is_digit)]
pub fn is_digit(c: char) -> (r: bool)
    ensures
        r == spec_is_digit(c),
{
    c >= '0' && c <= '9'
}

/// The characters of `text`, in order.
pub fn chars_of(text: &str) -> (chars: Vec<char>)
    ensures
        chars@ == text@,
{
    let mut chars: Vec<char> = Vec::new();
    for c in it: text.chars()
        invariant
            chars@ == it.seq().take(it.index() as int),
            it.seq() == text@,
    {
        chars.push(c);
    }
    chars
}

/// Whether `token` spells `word`.
pub fn spells(token: &[char], word: &str) -> (same: bool)
    ensures
        same == (token@ == word@),
{
    let letters = chars_of(word);
    if letters.len() != token.len() {
        return false;
    }
    let mut i: usize = 0;
    while i < token.len()
        invariant
            i <= token.len(),
            letters.len() == token.len(),
            letters@ == word@,
            token@.take(i as int) == letters@.take(i as int),
        decreases token.len() - i,
    {
        if token[i] != letters[i] {
            assert(token@[i as int] != word@[i as int]);
            return false;
        }
        assert(token@.take(i + 1) == token@.take(i as int).push(token@[i as int]));
        assert(letters@.take(i + 1) == letters@.take(i as int).push(letters@[i as int]));
        i += 1;
    }
    assert(token@.take(i as int) == token@);
    assert(letters@.take(i as int) == letters@);
    true
}

/// The views of the vectors of `items`.
pub open spec fn views(items: Seq<Vec<char>>) -> Seq<Seq<char>> {
    items.map_values(|v: Vec<char>| v@)
}

/// The index of the first occurrence of `c` in `s` at or after `from`, or
/// the length of `s` where there is none.
pub open spec fn next_index_of(s: Seq<char>, c: char, from: int) -> int
    decreases s.len() - from,
{
    if from >= s.len() {
        s.len() as int
    } else if s[from] == c {
        from
    } else {
        next_index_of(s, c, from + 1)
    }
}

/// The index of the first white space in `s` at or after `from`, or the
/// length of `s`.
pub open spec fn next_space(s: Seq<char>, from: int) -> int
    decreases s.len() - from,
{
    if from >= s.len() {
        s.len() as int
    } else if is_space(s[from]) {
        from
    } else {
        next_space(s, from + 1)
    }
}

/// The index of the first character in `s` at or after `from` that is not
/// white space, or the length of `s`.
pub open spec fn next_solid(s: Seq<char>, from: int) -> int
    decreases s.len() - from,
{
    if from >= s.len() {
        s.len() as int
    } else if !is_space(s[from]) {
        from
    } else {
        next_solid(s, from + 1)
    }
}

/// Where a search from `from` ends: not before `from`, not after the end.
pub proof fn lemma_next_bounds(s: Seq<char>, c: char, from: int)
    requires
        0 <= from <= s.len(),
    ensures
        from <= next_index_of(s, c, from) <= s.len(),
        from <= next_space(s, from) <= s.len(),
        from <= next_solid(s, from) <= s.len(),
        next_solid(s, from) < s.len() ==> next_space(s, next_solid(s, from)) > next_solid(
            s,
            from,
        ),
    decreases s.len() - from,
{
    if from < s.len() {
        lemma_next_bounds(s, c, from + 1);
    }
}

/// The tokens of `s` from index `from` on: the maximal runs of characters
/// that are not white space, in order.
pub open spec fn tokens_from(s: Seq<char>, from: int) -> Seq<Seq<char>>
    decreases s.len() - from,
    via tokens_from_ends
{
    if 0 <= from < s.len() {
        let start = next_solid(s, from);
        let end = next_space(s, start);
        if start < s.len() {
            seq![s.subrange(start, end)] + tokens_from(s, end)
        } else {
            Seq::empty()
        }
    } else {
        Seq::empty()
    }
}

#[via_fn]
proof fn tokens_from_ends(s: Seq<char>, from: int) {
    if 0 <= from < s.len() {
        lemma_next_bounds(s, ' ', from);
        lemma_next_bounds(s, ' ', next_solid(s, from));
    }
}

/// The tokens of the line `s`.
pub open spec fn tokens(s: Seq<char>) -> Seq<Seq<char>> {
    tokens_from(s, 0)
}

/// The lines of `s` from index `from` on: the pieces between line feeds. A
/// text that ends in a line feed has an empty last line.
pub open spec fn lines_from(s: Seq<char>, from: int) -> Seq<Seq<char>>
    decreases s.len() - from,
    via lines_from_ends
{
    if 0 <= from <= s.len() {
        let end = next_index_of(s, '\n', from);
        if end < s.len() {
            seq![s.subrange(from, end)] + lines_from(s, end + 1)
        } else {
            seq![s.subrange(from, s.len() as int)]
        }
    } else {
        Seq::empty()
    }
}

#[via_fn]
proof fn lines_from_ends(s: Seq<char>, from: int) {
    if 0 <= from <= s.len() {
        lemma_next_bounds(s, '\n', from);
    }
}

/// The lines of the text `s`.
pub open spec fn lines(s: Seq<char>) -> Seq<Seq<char>> {
    lines_from(s, 0)
}

/// What lies before the end of a search is not what was searched for.
pub proof fn lemma_next_skips(s: Seq<char>, c: char, from: int, i: int)
    requires
        0 <= from <= i,
    ensures
        i < next_index_of(s, c, from) ==> s[i] != c,
        i < next_space(s, from) ==> !is_space(s[i]),
        i < next_solid(s, from) ==> is_space(s[i]),
    decreases i - from,
{
    if from < i && from < s.len() {
        lemma_next_skips(s, c, from + 1, i);
    }
}

/// Every token has a character, and none of its characters is white space.
pub proof fn law_tokens_hold_no_space(s: Seq<char>, from: int)
    ensures
        forall|k: int|
            0 <= k < tokens_from(s, from).len() ==> (#[trigger] tokens_from(s, from)[k]).len() > 0
                && forall|i: int|
                0 <= i < tokens_from(s, from)[k].len() ==> !is_space(tokens_from(s, from)[k][i]),
    decreases s.len() - from,
{
    if 0 <= from < s.len() {
        let start = next_solid(s, from);
        let end = next_space(s, start);
        lemma_next_bounds(s, ' ', from);
        if start < s.len() {
            lemma_next_bounds(s, ' ', start);
            law_tokens_hold_no_space(s, end);
            let first = s.subrange(start, end);
            assert forall|i: int| 0 <= i < first.len() implies !is_space(first[i]) by {
                lemma_next_skips(s, ' ', start, start + i);
            }
            let rest = tokens_from(s, end);
            let all = tokens_from(s, from);
            assert(all == seq![first] + rest);
            assert forall|k: int| 0 <= k < all.len() implies (#[trigger] all[k]).len() > 0
                && forall|i: int| 0 <= i < all[k].len() ==> !is_space(all[k][i]) by {
                if k > 0 {
                    assert(all[k] == rest[k - 1]);
                }
            }
        }
    }
}

/// No line holds a line feed.
pub proof fn law_lines_hold_no_feed(s: Seq<char>, from: int)
    ensures
        forall|k: int, i: int|
            0 <= k < lines_from(s, from).len() && 0 <= i < lines_from(s, from)[k].len()
                ==> #[trigger] lines_from(s, from)[k][i] != '\n',
    decreases s.len() - from,
{
    if 0 <= from <= s.len() {
        let end = next_index_of(s, '\n', from);
        lemma_next_bounds(s, '\n', from);
        let first = s.subrange(from, end);
        assert forall|i: int| 0 <= i < first.len() implies first[i] != '\n' by {
            lemma_next_skips(s, '\n', from, from + i);
        }
        if end < s.len() {
            law_lines_hold_no_feed(s, end + 1);
            let rest = lines_from(s, end + 1);
            let all = lines_from(s, from);
            assert(all == seq![first] + rest);
            assert forall|k: int, i: int|
                0 <= k < all.len() && 0 <= i < all[k].len() implies #[trigger] all[k][i]
                != '\n' by {
                if k > 0 {
                    assert(all[k] == rest[k - 1]);
                }
            }
        }
    }
}

fn copy_range(s: &[char], start: usize, end: usize) -> (piece: Vec<char>)
    requires
        start <= end <= s.len(),
    ensures
        piece@ == s@.subrange(start as int, end as int),
{
    let mut piece: Vec<char> = Vec::new();
    let mut i = start;
    while i < end
        invariant
            start <= i <= end <= s.len(),
            piece@ == s@.subrange(start as int, i as int),
        decreases end - i,
    {
        piece.push(s[i]);
        assert(s@.subrange(start as int, i + 1) == s@.subrange(start as int, i as int).push(
            s@[i as int],
        ));
        i += 1;
    }
    piece
}

/// Splits a line into its tokens.
pub fn split_tokens(line: &[char]) -> (found: Vec<Vec<char>>)
    ensures
        views(found@) == tokens(line@),
{
    let mut found: Vec<Vec<char>> = Vec::new();
    let mut i: usize = 0;
    assert(views(found@) =~= Seq::<Seq<char>>::empty());
    while i < line.len()
        invariant
            i <= line.len(),
            views(found@) + tokens_from(line@, i as int) == tokens(line@),
        decreases line.len() - i,
    {
        let ghost from = i;
        let mut start = i;
        while start < line.len() && is_space(line[start])
            invariant
                from <= start <= line.len(),
                next_solid(line@, start as int) == next_solid(line@, from as int),
            decreases line.len() - start,
        {
            start += 1;
        }
        if start == line.len() {
            assert(tokens_from(line@, from as int) =~= Seq::<Seq<char>>::empty());
            assert(tokens_from(line@, start as int) =~= Seq::<Seq<char>>::empty());
            i = start;
        } else {
            let mut end = start;
            while end < line.len() && !is_space(line[end])
                invariant
                    start <= end <= line.len(),
                    next_space(line@, end as int) == next_space(line@, start as int),
                decreases line.len() - end,
            {
                end += 1;
            }
            let token = copy_range(line, start, end);
            proof {
                assert(next_solid(line@, from as int) == start);
                assert(next_space(line@, start as int) == end);
                assert(tokens_from(line@, from as int) == seq![line@.subrange(start as int, end as int)]
                    + tokens_from(line@, end as int));
                assert(views(found@.push(token)) =~= views(found@).push(token@));
                assert(views(found@).push(token@) + tokens_from(line@, end as int) =~= views(found@)
                    + (seq![token@] + tokens_from(line@, end as int)));
            }
            found.push(token);
            i = end;
        }
    }
    assert(tokens_from(line@, i as int) =~= Seq::<Seq<char>>::empty());
    assert(views(found@) + Seq::<Seq<char>>::empty() =~= views(found@));
    found
}

/// Splits a text into its lines.
pub fn split_lines(text: &[char]) -> (found: Vec<Vec<char>>)
    ensures
        views(found@) == lines(text@),
{
    let mut found: Vec<Vec<char>> = Vec::new();
    let mut from: usize = 0;
    assert(views(found@) =~= Seq::<Seq<char>>::empty());
    loop
        invariant_except_break
            from <= text.len(),
            views(found@) + lines_from(text@, from as int) == lines(text@),
        ensures
            views(found@) == lines(text@),
        decreases text.len() - from,
    {
        let mut end = from;
        while end < text.len() && text[end] != '\n'
            invariant
                from <= end <= text.len(),
                next_index_of(text@, '\n', end as int) == next_index_of(text@, '\n', from as int),
            decreases text.len() - end,
        {
            end += 1;
        }
        let line = copy_range(text, from, end);
        proof {
            assert(next_index_of(text@, '\n', from as int) == end);
            assert(views(found@.push(line)) =~= views(found@).push(line@));
        }
        found.push(line);
        if end == text.len() {
            proof {
                assert(lines_from(text@, from as int) == seq![line@]);
                assert(views(found@) =~= views(found@.drop_last()) + seq![line@]);
            }
            break;
        }
        proof {
            assert(lines_from(text@, from as int) == seq![line@] + lines_from(text@, end + 1));
            assert(views(found@.drop_last()).push(line@) + lines_from(text@, end + 1) =~= views(
                found@.drop_last(),
            ) + (seq![line@] + lines_from(text@, end + 1)));
        }
        from = end + 1;
    }
    found
}

/// Whether every character of `s` is a decimal digit.
pub open spec fn all_digits(s: Seq<char>) -> bool {
    forall|i: int| 0 <= i < s.len() ==> is_digit(#[trigger] s[i])
}

/// The number that the decimal digits `s` spell; zero for no digits.
pub open spec fn digits_value(s: Seq<char>) -> nat
    decreases s.len(),
{
    if s.len() == 0 {
        0
    } else {
        (digits_value(s.drop_last()) * 10 + (s.last() as int - '0' as int)) as nat
    }
}

/// The smaller of two numbers.
pub open spec fn least(a: int, b: int) -> int {
    if a <= b {
        a
    } else {
        b
    }
}

/// Reads the digits `s[from..to]`. The result is `None` where one of the
/// characters is no digit, and otherwise the number they spell, or `cap`
/// where that number is greater.
fn read_digits(s: &[char], from: usize, to: usize, cap: u64) -> (value: Option<u64>)
    requires
        from <= to <= s.len(),
        cap <= 1_000_000_000_000_000_000,
    ensures
        all_digits(s@.subrange(from as int, to as int)) ==> value == Some(
            least(digits_value(s@.subrange(from as int, to as int)) as int, cap as int) as u64,
        ),
        !all_digits(s@.subrange(from as int, to as int)) ==> value is None,
{
    let mut value: u64 = 0;
    let mut i = from;
    while i < to
        invariant
            from <= i <= to <= s.len(),
            cap <= 1_000_000_000_000_000_000,
            all_digits(s@.subrange(from as int, i as int)),
            value == least(digits_value(s@.subrange(from as int, i as int)) as int, cap as int),
        decreases to - i,
    {
        let c = s[i];
        if !is_digit(c) {
            assert(s@.subrange(from as int, to as int)[i - from] == c);
            return None;
        }
        let ghost before = s@.subrange(from as int, i as int);
        let ghost after = s@.subrange(from as int, i + 1);
        assert(after.drop_last() == before);
        assert(after.last() == c);
        let digit: u64 = (c as u32 - '0' as u32) as u64;
        let next: u64 = value * 10 + digit;
        value = if next > cap {
            cap
        } else {
            next
        };
        i += 1;
    }
    Some(value)
}

/// The number that `s` spells: an optional `+`, then one or more digits.
pub open spec fn natural(s: Seq<char>) -> Option<nat> {
    let digits = if s.len() > 0 && s[0] == '+' {
        s.subrange(1, s.len() as int)
    } else {
        s
    };
    if digits.len() > 0 && all_digits(digits) {
        Some(digits_value(digits))
    } else {
        None
    }
}

/// The `u32` that `s` spells, if it spells one.
pub open spec fn spec_parse_u32(s: Seq<char>) -> Option<u32> {
    match natural(s) {
        Some(n) => if n <= u32::MAX {
            Some(n as u32)
        } else {
            None
        },
        None => None,
    }
}

/// The `u8` that `s` spells, if it spells one.
pub open spec fn spec_parse_u8(s: Seq<char>) -> Option<u8> {
    match natural(s) {
        Some(n) => if n <= u8::MAX {
            Some(n as u8)
        } else {
            None
        },
        None => None,
    }
}

fn read_natural(token: &[char], cap: u64) -> (value: Option<u64>)
    requires
        cap <= 1_000_000_000_000_000_000,
    ensures
        value == match natural(token@) {
            Some(n) => Some(least(n as int, cap as int) as u64),
            None => None,
        },
{
    let from: usize = if token.len() > 0 && token[0] == '+' {
        1
    } else {
        0
    };
    if from == token.len() {
        return None;
    }
    if from == 0 {
        assert(token@.subrange(0, token.len() as int) == token@);
    }
    read_digits(token, from, token.len(), cap)
}

/// Reads a `u32`.
pub fn parse_u32(token: &[char]) -> (value: Option<u32>)
    ensures
        value == spec_parse_u32(token@),
{
    match read_natural(token, 0x1_0000_0000) {
        Some(n) => if n <= 0xffff_ffff {
            Some(n as u32)
        } else {
            None
        },
        None => None,
    }
}

/// Reads a `u8`.
pub fn parse_u8(token: &[char]) -> (value: Option<u8>)
    ensures
        value == spec_parse_u8(token@),
{
    match read_natural(token, 0x100) {
        Some(n) => if n <= 0xff {
            Some(n as u8)
        } else {
            None
        },
        None => None,
    }
}

/// The boolean that `s` spells, if it spells one.
pub open spec fn spec_parse_bool(s: Seq<char>) -> Option<bool> {
    if s == "true"@ {
        Some(true)
    } else if s == "false"@ {
        Some(false)
    } else {
        None
    }
}

/// Reads a boolean.
pub fn parse_bool(token: &[char]) -> (value: Option<bool>)
    ensures
        value == spec_parse_bool(token@),
{
    if spells(token, "true") {
        Some(true)
    } else if spells(token, "false") {
        Some(false)
    } else {
        None
    }
}

/// Whether `s` begins with a sign.
pub open spec fn signed(s: Seq<char>) -> bool {
    s.len() > 0 && (s[0] == '+' || s[0] == '-')
}

/// `s` without its sign.
pub open spec fn unsigned_part(s: Seq<char>) -> Seq<char> {
    if signed(s) {
        s.subrange(1, s.len() as int)
    } else {
        s
    }
}

/// The part of the unsigned numeral `s` before its first point.
pub open spec fn whole_part(s: Seq<char>) -> Seq<char> {
    s.subrange(0, next_index_of(s, '.', 0))
}

/// The part of the unsigned numeral `s` after its first point; empty where
/// it has no point.
pub open spec fn fraction_part(s: Seq<char>) -> Seq<char> {
    if next_index_of(s, '.', 0) < s.len() {
        s.subrange(next_index_of(s, '.', 0) + 1, s.len() as int)
    } else {
        Seq::empty()
    }
}

/// The first nine characters of `s`, with `0` in the places that `s` does
/// not reach.
pub open spec fn nine_places(s: Seq<char>) -> Seq<char> {
    Seq::new(
        9,
        |i: int|
            if i < s.len() {
                s[i]
            } else {
                '0'
            },
    )
}

/// The scalar that `s` spells, if it spells one.
pub open spec fn decimal(s: Seq<char>) -> Option<Scalar> {
    let numeral = unsigned_part(s);
    let whole = whole_part(numeral);
    let fraction = fraction_part(numeral);
    if all_digits(whole) && all_digits(fraction) && whole.len() + fraction.len() > 0 {
        let size = digits_value(whole) * SCALE + digits_value(nine_places(fraction));
        Some(
            Scalar {
                raw: saturate(
                    if s[0] == '-' {
                        -size
                    } else {
                        size
                    },
                ),
            },
        )
    } else {
        None
    }
}

/// Ten to the power `n`, for `n` up to nine.
spec fn ten_to(n: int) -> int {
    if n <= 0 {
        1
    } else if n == 1 {
        10
    } else if n == 2 {
        100
    } else if n == 3 {
        1_000
    } else if n == 4 {
        10_000
    } else if n == 5 {
        100_000
    } else if n == 6 {
        1_000_000
    } else if n == 7 {
        10_000_000
    } else if n == 8 {
        100_000_000
    } else {
        1_000_000_000
    }
}

fn read_nine_places(s: &[char], from: usize) -> (value: u64)
    requires
        from <= s.len(),
        all_digits(s@.subrange(from as int, s.len() as int)),
    ensures
        value == digits_value(nine_places(s@.subrange(from as int, s.len() as int))),
        value < SCALE,
{
    let ghost fraction = s@.subrange(from as int, s.len() as int);
    let ghost places = nine_places(fraction);
    assert(all_digits(places)) by {
        assert forall|i: int| 0 <= i < places.len() implies is_digit(#[trigger] places[i]) by {
            if i < fraction.len() {
                assert(is_digit(fraction[i]));
            }
        }
    }
    let mut value: u64 = 0;
    let mut i: usize = 0;
    while i < 9
        invariant
            i <= 9,
            from <= s.len(),
            fraction == s@.subrange(from as int, s.len() as int),
            places == nine_places(fraction),
            all_digits(places),
            all_digits(fraction),
            value == digits_value(places.take(i as int)),
            value < ten_to(i as int),
        decreases 9 - i,
    {
        let digit: u64 = if i < s.len() - from {
            assert(fraction[i as int] == s@[from + i]);
            assert(is_digit(fraction[i as int]));
            (s[from + i] as u32 - '0' as u32) as u64
        } else {
            0
        };
        proof {
            let next = places.take(i + 1);
            assert(next.drop_last() == places.take(i as int));
            assert(next.last() == places[i as int]);
            assert(is_digit(places[i as int]));
        }
        value = value * 10 + digit;
        i += 1;
    }
    assert(places.take(9) == places);
    value
}

/// Reads a scalar.
pub fn parse_scalar(token: &[char]) -> (value: Option<Scalar>)
    ensures
        value == decimal(token@),
{
    let from: usize = if token.len() > 0 && (token[0] == '+' || token[0] == '-') {
        1
    } else {
        0
    };
    let ghost numeral = unsigned_part(token@);
    assert(numeral == token@.subrange(from as int, token.len() as int));
    let mut point = from;
    while point < token.len() && token[point] != '.'
        invariant
            from <= point <= token.len(),
            numeral == token@.subrange(from as int, token.len() as int),
            next_index_of(numeral, '.', point - from) == next_index_of(numeral, '.', 0),
        decreases token.len() - point,
    {
        assert(numeral[point - from] == token@[point as int]);
        point += 1;
    }
    proof {
        if point < token.len() {
            assert(numeral[point - from] == token@[point as int]);
        }
        assert(next_index_of(numeral, '.', 0) == point - from);
        assert(whole_part(numeral) == token@.subrange(from as int, point as int));
    }
    let after: usize = if point < token.len() {
        point + 1
    } else {
        point
    };
    assert(fraction_part(numeral) =~= token@.subrange(after as int, token.len() as int));
    if point - from + (token.len() - after) == 0 {
        return None;
    }
    let whole = match read_digits(token, from, point, 10_000_000_000) {
        Some(n) => n,
        None => {
            return None;
        },
    };
    if read_digits(token, after, token.len(), 0).is_none() {
        return None;
    }
    let fraction = read_nine_places(token, after);
    let size: i128 = whole as i128 * 1_000_000_000i128 + fraction as i128;
    let raw: i128 = if token[0] == '-' {
        -size
    } else {
        size
    };
    proof {
        let exact = digits_value(whole_part(numeral)) * SCALE + digits_value(
            nine_places(fraction_part(numeral)),
        );
        if digits_value(whole_part(numeral)) >= 10_000_000_000 {
            assert(exact >= 10_000_000_000 * 1_000_000_000) by (nonlinear_arith)
                requires
                    exact >= digits_value(whole_part(numeral)) * 1_000_000_000,
                    digits_value(whole_part(numeral)) >= 10_000_000_000,
            ;
        }
    }
    Some(
        Scalar {
            raw: if raw > 0x7fff_ffff_ffff_ffffi128 {
                i64::MAX
            } else if raw < -0x8000_0000_0000_0000i128 {
                i64::MIN
            } else {
                raw as i64
            },
        },
    )
}

impl Scalar {
    /// Reads a scalar from `text`, which holds the numeral and nothing else.
    pub fn parse(text: &str) -> (value: Option<Scalar>)
        ensures
            value == decimal(text@),
    {
        let chars = chars_of(text);
        parse_scalar(chars.as_slice())
    }
}

} // verus!
