//! Reading settings from the text of a configuration file: lines of the
//! form `key = (r, g, b)` for colours and `key = "text"` for texts.

use vstd::prelude::*;
use crate::text::{chars_of, lines_view, split_on, string_of, trim, trim_bounds};

verus! {

/// `line` begins with `key`.
pub open spec fn starts_with(line: Seq<char>, key: Seq<char>) -> bool {
    line.len() >= key.len() && line.take(key.len() as int) == key
}

/// What follows the last `sep` in `s`; all of `s` where it holds none.
pub open spec fn after_last(s: Seq<char>, sep: char) -> Seq<char>
    decreases s.len(),
{
    if s.len() == 0 || s.last() == sep {
        Seq::<char>::empty()
    } else {
        after_last(s.drop_last(), sep).push(s.last())
    }
}

/// The value of a setting line: what follows the last `=`, trimmed, without
/// its first and its last character (the brackets or the quotes). A line
/// whose trimmed value has fewer than two characters has none.
pub open spec fn value_text(line: Seq<char>) -> Option<Seq<char>> {
    let value = trim(after_last(line, '='));
    if value.len() >= 2 {
        Some(value.subrange(1, value.len() - 1))
    } else {
        None
    }
}

/// A decimal digit.
pub open spec fn is_digit(c: char) -> bool {
    '0' as u32 <= c as u32 <= '9' as u32
}

/// Every character of `s` is a decimal digit.
pub open spec fn all_digits(s: Seq<char>) -> bool {
    forall|i: int| 0 <= i < s.len() ==> is_digit(#[trigger] s[i])
}

/// The number that the digits `s` write.
pub open spec fn digits_value(s: Seq<char>) -> nat
    decreases s.len(),
{
    if s.len() == 0 {
        0
    } else {
        (digits_value(s.drop_last()) * 10 + (s.last() as u32 - '0' as u32)) as nat
    }
}

/// `s` without a plus sign at its start.
pub open spec fn unsigned_part(s: Seq<char>) -> Seq<char> {
    if s.len() > 0 && s[0] == '+' {
        s.drop_first()
    } else {
        s
    }
}

/// The number from 0 to 255 that `s` writes: at least one decimal digit,
/// with or without a plus sign in front. Anything else writes none.
pub open spec fn number_u8(s: Seq<char>) -> Option<u8> {
    let digits = unsigned_part(s);
    if digits.len() > 0 && all_digits(digits) && digits_value(digits) <= 255 {
        Some(digits_value(digits) as u8)
    } else {
        None
    }
}

/// The number that the `i`-th part of `parts` writes once it is trimmed.
pub open spec fn part_number(parts: Seq<Seq<char>>, i: int) -> Option<u8> {
    number_u8(trim(parts[i]))
}

/// The colour that `value` writes: numbers separated by commas, at least
/// three of them, all from 0 to 255; the first three are red, green and
/// blue.
pub open spec fn color_of(value: Seq<char>) -> Option<(u8, u8, u8)> {
    let parts = split_on(value, ',');
    if parts.len() >= 3 && (forall|i: int|
        0 <= i < parts.len() ==> (#[trigger] part_number(parts, i)) is Some) {
        Some((part_number(parts, 0)->0, part_number(parts, 1)->0, part_number(parts, 2)->0))
    } else {
        None
    }
}

/// The colour that a setting line gives.
pub open spec fn color_value(line: Seq<char>) -> Option<(u8, u8, u8)> {
    match value_text(line) {
        Some(value) => color_of(value),
        None => None,
    }
}

/// Every line that starts with `key` gives a colour.
pub open spec fn colors_valid(lines: Seq<Seq<char>>, key: Seq<char>) -> bool {
    forall|i: int|
        0 <= i < lines.len() && starts_with(#[trigger] lines[i], key) ==> color_value(lines[i])
            is Some
}

/// Every line that starts with `key` gives a text.
pub open spec fn texts_valid(lines: Seq<Seq<char>>, key: Seq<char>) -> bool {
    forall|i: int|
        0 <= i < lines.len() && starts_with(#[trigger] lines[i], key) ==> value_text(lines[i])
            is Some
}

/// The colour of `key`: that of the last line that starts with `key` and
/// gives a colour, and `default` where there is none.
pub open spec fn color_setting(lines: Seq<Seq<char>>, key: Seq<char>, default: (u8, u8, u8)) -> (
    u8,
    u8,
    u8,
)
    decreases lines.len(),
{
    if lines.len() == 0 {
        default
    } else if starts_with(lines.last(), key) && color_value(lines.last()) is Some {
        color_value(lines.last())->0
    } else {
        color_setting(lines.drop_last(), key, default)
    }
}

/// The text of `key`: that of the last line that starts with `key` and gives
/// a text, and `default` where there is none.
pub open spec fn text_setting(lines: Seq<Seq<char>>, key: Seq<char>, default: Seq<char>) -> Seq<
    char,
>
    decreases lines.len(),
{
    if lines.len() == 0 {
        default
    } else if starts_with(lines.last(), key) && value_text(lines.last()) is Some {
        value_text(lines.last())->0
    } else {
        text_setting(lines.drop_last(), key, default)
    }
}

/// Whether `line` begins with `key`.
pub fn has_prefix(line: &Vec<char>, key: &Vec<char>) -> (b: bool)
    ensures
        b == starts_with(line@, key@),
{
    let n = key.len();
    if line.len() < n {
        return false;
    }
    let mut i: usize = 0;
    while i < n
        invariant
            i <= n,
            n == key@.len(),
            n <= line@.len(),
            forall|k: int| 0 <= k < i ==> line@[k] == key@[k],
        decreases n - i,
    {
        if line[i] != key[i] {
            assert(line@.take(n as int)[i as int] != key@[i as int]);
            return false;
        }
        i += 1;
    }
    assert(line@.take(n as int) =~= key@);
    true
}

/// What follows the last `sep` in `s` starts at `j` when `s[j..]` holds no
/// `sep` and `j` is 0 or follows a `sep`.
proof fn lemma_after_last_from(s: Seq<char>, sep: char, j: int)
    requires
        0 <= j <= s.len(),
        forall|k: int| j <= k < s.len() ==> s[k] != sep,
        j == 0 || s[j - 1] == sep,
    ensures
        after_last(s, sep) == s.skip(j),
    decreases s.len(),
{
    if j < s.len() {
        lemma_after_last_from(s.drop_last(), sep, j);
        assert(s.drop_last().skip(j).push(s.last()) == s.skip(j));
    } else {
        assert(s.skip(j) == Seq::<char>::empty());
    }
}

/// The bounds of the value of a setting line.
pub fn value_bounds(line: &Vec<char>) -> (bounds: Option<(usize, usize)>)
    ensures
        value_text(line@) is Some <==> bounds is Some,
        bounds matches Some((from, to)) ==> from <= to <= line@.len() && line@.subrange(
            from as int,
            to as int,
        ) == value_text(line@)->0,
{
    let n = line.len();
    let mut from: usize = n;
    while from > 0 && line[from - 1] != '='
        invariant
            from <= n,
            n == line@.len(),
            forall|k: int| from <= k < n ==> line@[k] != '=',
        decreases from,
    {
        from -= 1;
    }
    proof {
        lemma_after_last_from(line@, '=', from as int);
        assert(line@.skip(from as int) == line@.subrange(from as int, n as int));
    }
    let (start, end) = trim_bounds(line, from, n);
    if end - start >= 2 {
        proof {
            let value = line@.subrange(start as int, end as int);
            assert(value.subrange(1, value.len() - 1) == line@.subrange(start + 1, end - 1));
        }
        Some((start + 1, end - 1))
    } else {
        None
    }
}

/// Reads the number from 0 to 255 that `chars[from..to]` writes.
pub fn parse_number(chars: &Vec<char>, from: usize, to: usize) -> (number: Option<u8>)
    requires
        from <= to <= chars@.len(),
    ensures
        number == number_u8(chars@.subrange(from as int, to as int)),
{
    let ghost whole = chars@.subrange(from as int, to as int);
    let start = if from < to && chars[from] == '+' {
        from + 1
    } else {
        from
    };
    let ghost digits = chars@.subrange(start as int, to as int);
    assert(digits == unsigned_part(whole));
    if start == to {
        return None;
    }
    let mut value: u32 = 0;
    let mut over = false;
    let mut i: usize = start;
    while i < to
        invariant
            from <= start <= i <= to <= chars@.len(),
            digits == chars@.subrange(start as int, to as int),
            digits == unsigned_part(chars@.subrange(from as int, to as int)),
            all_digits(digits.take(i - start)),
            !over ==> value == digits_value(digits.take(i - start)) && value <= 255,
            over ==> digits_value(digits.take(i - start)) > 255,
        decreases to - i,
    {
        let n = chars[i] as u32;
        if n < 48 || n > 57 {
            assert(digits[i - start] == chars@[i as int]);
            assert(!is_digit(digits[i - start]));
            assert(!all_digits(digits));
            return None;
        }
        proof {
            let before = digits.take(i - start);
            let now = digits.take(i - start + 1);
            assert(now.drop_last() == before);
            assert(now.last() == chars@[i as int]);
        }
        if !over {
            value = value * 10 + (n - 48);
            if value > 255 {
                over = true;
            }
        }
        i += 1;
    }
    assert(digits.take(to - start) == digits);
    if over {
        None
    } else {
        Some(value as u8)
    }
}

/// Reads the colour that `chars[from..to]` writes.
pub fn parse_color(chars: &Vec<char>, from: usize, to: usize) -> (color: Option<(u8, u8, u8)>)
    requires
        from <= to <= chars@.len(),
    ensures
        color == color_of(chars@.subrange(from as int, to as int)),
{
    let ghost value = chars@.subrange(from as int, to as int);
    let mut numbers: Vec<Option<u8>> = Vec::new();
    let mut piece: usize = from;
    let mut i: usize = from;
    while i < to
        invariant
            from <= piece <= i <= to <= chars@.len(),
            value == chars@.subrange(from as int, to as int),
            split_on(value.take(i - from), ',').len() == numbers@.len() + 1,
            split_on(value.take(i - from), ',').last() == chars@.subrange(piece as int, i as int),
            forall|k: int|
                0 <= k < numbers@.len() ==> numbers@[k] == #[trigger] part_number(
                    split_on(value.take(i - from), ','),
                    k,
                ),
        decreases to - i,
    {
        let ghost before = split_on(value.take(i - from), ',');
        let ghost now = split_on(value.take(i - from + 1), ',');
        let ghost count = numbers@.len();
        proof {
            assert(value.take(i - from + 1).drop_last() == value.take(i - from));
            assert(value.take(i - from + 1).last() == chars@[i as int]);
            assert(chars@.subrange(piece as int, i as int).push(chars@[i as int])
                == chars@.subrange(piece as int, i + 1));
        }
        if chars[i] == ',' {
            let (start, end) = trim_bounds(chars, piece, i);
            numbers.push(parse_number(chars, start, end));
            piece = i + 1;
            proof {
                assert(now == before.push(Seq::<char>::empty()));
                assert(chars@.subrange(piece as int, piece as int) == Seq::<char>::empty());
                assert forall|k: int| 0 <= k < numbers@.len() implies numbers@[k]
                    == #[trigger] part_number(now, k) by {
                    assert(now[k] == before[k]);
                    if k < count {
                        assert(numbers@[k] == part_number(before, k));
                    }
                }
            }
        } else {
            proof {
                assert(now == before.update(
                    before.len() - 1,
                    before.last().push(chars@[i as int]),
                ));
                assert forall|k: int| 0 <= k < numbers@.len() implies numbers@[k]
                    == #[trigger] part_number(now, k) by {
                    assert(now[k] == before[k]);
                    assert(numbers@[k] == part_number(before, k));
                }
            }
        }
        i += 1;
    }
    let (start, end) = trim_bounds(chars, piece, to);
    numbers.push(parse_number(chars, start, end));
    let ghost parts = split_on(value, ',');
    proof {
        assert(value.take(to - from) == value);
        assert forall|k: int| 0 <= k < numbers@.len() implies numbers@[k]
            == #[trigger] part_number(parts, k) by {
            if k < numbers@.len() - 1 {
                assert(numbers@[k] == part_number(split_on(value.take(to - from), ','), k));
            }
        }
    }
    let n = numbers.len();
    let mut k: usize = 0;
    while k < n
        invariant
            k <= n,
            n == numbers@.len(),
            n == parts.len(),
            from <= to <= chars@.len(),
            parts == split_on(chars@.subrange(from as int, to as int), ','),
            forall|j: int| 0 <= j < n ==> numbers@[j] == #[trigger] part_number(parts, j),
            forall|j: int| 0 <= j < k ==> (#[trigger] part_number(parts, j)) is Some,
        decreases n - k,
    {
        if numbers[k].is_none() {
            assert(part_number(parts, k as int) is None);
            return None;
        }
        k += 1;
    }
    if n < 3 {
        return None;
    }
    assert(part_number(parts, 0) is Some && part_number(parts, 1) is Some && part_number(parts, 2)
        is Some);
    Some((numbers[0].unwrap(), numbers[1].unwrap(), numbers[2].unwrap()))
}

/// Reads the colour that `lines` give to `key`. `None` where a line that
/// starts with `key` gives no colour.
pub fn read_color(lines: &Vec<String>, key: &str, default: (u8, u8, u8)) -> (color: Option<
    (u8, u8, u8),
>)
    ensures
        color is Some <==> colors_valid(lines_view(lines@), key@),
        color is Some ==> color->0 == color_setting(lines_view(lines@), key@, default),
{
    let key_chars = chars_of(key);
    let ghost all = lines_view(lines@);
    let mut current = default;
    let n = lines.len();
    let mut i: usize = 0;
    while i < n
        invariant
            i <= n,
            n == lines@.len(),
            all == lines_view(lines@),
            key_chars@ == key@,
            colors_valid(all.take(i as int), key@),
            current == color_setting(all.take(i as int), key@, default),
        decreases n - i,
    {
        let line = chars_of(lines[i].as_str());
        proof {
            assert(all.take(i + 1).drop_last() == all.take(i as int));
            assert(all.take(i + 1).last() == line@);
        }
        if has_prefix(&line, &key_chars) {
            let found = match value_bounds(&line) {
                Some((from, to)) => parse_color(&line, from, to),
                None => None,
            };
            match found {
                Some(color) => {
                    current = color;
                },
                None => {
                    assert(all[i as int] == line@);
                    return None;
                },
            }
        }
        assert(colors_valid(all.take(i + 1), key@)) by {
            assert forall|k: int|
                0 <= k < all.take(i + 1).len() && starts_with(
                    #[trigger] all.take(i + 1)[k],
                    key@,
                ) implies color_value(all.take(i + 1)[k]) is Some by {
                if k < i {
                    assert(all.take(i as int)[k] == all.take(i + 1)[k]);
                }
            }
        }
        i += 1;
    }
    assert(all.take(n as int) == all);
    Some(current)
}

/// Reads the text that `lines` give to `key`. `None` where a line that
/// starts with `key` gives no text.
pub fn read_text(lines: &Vec<String>, key: &str, default: &str) -> (text: Option<String>)
    ensures
        text is Some <==> texts_valid(lines_view(lines@), key@),
        text is Some ==> text->0@ == text_setting(lines_view(lines@), key@, default@),
{
    let key_chars = chars_of(key);
    let ghost all = lines_view(lines@);
    let mut current = default.to_owned();
    let n = lines.len();
    let mut i: usize = 0;
    while i < n
        invariant
            i <= n,
            n == lines@.len(),
            all == lines_view(lines@),
            key_chars@ == key@,
            texts_valid(all.take(i as int), key@),
            current@ == text_setting(all.take(i as int), key@, default@),
        decreases n - i,
    {
        let line = chars_of(lines[i].as_str());
        proof {
            assert(all.take(i + 1).drop_last() == all.take(i as int));
            assert(all.take(i + 1).last() == line@);
        }
        if has_prefix(&line, &key_chars) {
            match value_bounds(&line) {
                Some((from, to)) => {
                    current = string_of(&line, from, to);
                },
                None => {
                    assert(all[i as int] == line@);
                    return None;
                },
            }
        }
        assert(texts_valid(all.take(i + 1), key@)) by {
            assert forall|k: int|
                0 <= k < all.take(i + 1).len() && starts_with(
                    #[trigger] all.take(i + 1)[k],
                    key@,
                ) implies value_text(all.take(i + 1)[k]) is Some by {
                if k < i {
                    assert(all.take(i as int)[k] == all.take(i + 1)[k]);
                }
            }
        }
        i += 1;
    }
    assert(all.take(n as int) == all);
    Some(current)
}

} // verus!
