//! What a player types: the number of a hero, and the numbers of the wheels
//! to lock, separated by commas.
//!
//! A number is read as Rust reads an unsigned number: an optional `+` and
//! then decimal digits, nothing else, after white space at both ends has been
//! taken away.

use crate::engine::hero::{kind_at, Hero, HeroView};
use crate::engine::text::{decimal, decimal_text};
use vstd::prelude::*;
use vstd::string::*;

verus! {

/// The number of heroes to choose from.
pub const HERO_CHOICES: u8 = 6;

/// The number of wheels that can be locked.
pub const WHEELS: u8 = 5;

/// White space, as the Unicode standard has it.
pub open spec fn is_space(c: char) -> bool {
    let n = c as u32;
    ||| 0x09 <= n <= 0x0D
    ||| n == 0x20
    ||| n == 0x85
    ||| n == 0xA0
    ||| n == 0x1680
    ||| 0x2000 <= n <= 0x200A
    ||| n == 0x2028
    ||| n == 0x2029
    ||| n == 0x202F
    ||| n == 0x205F
    ||| n == 0x3000
}

/// A decimal digit.
pub open spec fn is_digit(c: char) -> bool {
    0x30 <= c as u32 <= 0x39
}

/// The value of a decimal digit.
pub open spec fn digit_of(c: char) -> int {
    c as u32 - 0x30
}

/// Every character of a text is a decimal digit.
pub open spec fn all_digits(s: Seq<char>) -> bool {
    forall|i: int| 0 <= i < s.len() ==> is_digit(#[trigger] s[i])
}

/// The number that a text of decimal digits writes.
pub open spec fn digits_value(s: Seq<char>) -> int
    decreases s.len(),
{
    if s.len() == 0 {
        0
    } else {
        digits_value(s.drop_last()) * 10 + digit_of(s.last())
    }
}

/// The number that a text writes, if it writes one that is at most `max`: an
/// optional `+`, then at least one digit, and nothing but digits.
pub open spec fn parse_unsigned(s: Seq<char>, max: int) -> Option<int> {
    let body = if s.len() > 0 && s[0] == '+' {
        s.drop_first()
    } else {
        s
    };
    if body.len() > 0 && all_digits(body) && digits_value(body) <= max {
        Some(digits_value(body))
    } else {
        None
    }
}

/// The place of the first character at or after `from` that is no white
/// space; the length of the text if there is none.
pub open spec fn skip_spaces(s: Seq<char>, from: int) -> int
    decreases s.len() - from,
{
    if 0 <= from < s.len() && is_space(s[from]) {
        skip_spaces(s, from + 1)
    } else {
        from
    }
}

/// The place behind the last character before `to` and not before `from`
/// that is no white space; `from` if there is none.
pub open spec fn drop_spaces(s: Seq<char>, from: int, to: int) -> int
    decreases to - from,
{
    if from < to <= s.len() && is_space(s[to - 1]) {
        drop_spaces(s, from, to - 1)
    } else {
        to
    }
}

/// The part of a text from `from` to `to` without the white space at its two
/// ends.
pub open spec fn trimmed(s: Seq<char>, from: int, to: int) -> Seq<char> {
    let a = skip_spaces(s.subrange(from, to), 0);
    let b = drop_spaces(s.subrange(from, to), a, to - from);
    s.subrange(from + a, from + b)
}

/// The place of the first comma at or after `from`; the length of the text
/// if there is none.
pub open spec fn comma_at(s: Seq<char>, from: int) -> int
    decreases s.len() - from,
{
    if 0 <= from < s.len() && s[from] != ',' {
        comma_at(s, from + 1)
    } else {
        from
    }
}

/// Why what was typed is not accepted.
#[derive(Debug)]
pub enum InputError {
    /// The text is no number.
    Unparsable(String),
    /// The number is not one of those offered.
    OutOfRange(usize),
}

/// An `InputError` without bounds on its number.
pub enum InputErrorView {
    Unparsable(Seq<char>),
    OutOfRange(int),
}

impl View for InputError {
    type V = InputErrorView;

    open spec fn view(&self) -> InputErrorView {
        match *self {
            InputError::Unparsable(text) => InputErrorView::Unparsable(text@),
            InputError::OutOfRange(n) => InputErrorView::OutOfRange(n as int),
        }
    }
}

impl InputErrorView {
    /// What the player is told, where the numbers offered are 1 to `top`.
    pub open spec fn msg(self, top: int) -> Seq<char> {
        match self {
            InputErrorView::Unparsable(text) => "failed to parse input '"@ + text + "'"@,
            InputErrorView::OutOfRange(n) => "invalid input '"@ + decimal(n) + "': must be 1-"@
                + decimal(top),
        }
    }
}

impl InputError {
    /// What the player is told, where the numbers offered are 1 to `top`.
    pub fn msg(&self, top: u8) -> (r: String)
        ensures
            r@ == self@.msg(top as int),
    {
        match self {
            InputError::Unparsable(text) => {
                let mut s = String::from_str("failed to parse input '");
                s.append(text.as_str());
                s.append("'");
                s
            },
            InputError::OutOfRange(n) => {
                let mut s = String::from_str("invalid input '");
                s.append(decimal_text(*n).as_str());
                s.append("': must be 1-");
                s.append(decimal_text(top as usize).as_str());
                s
            },
        }
    }
}

/// The number between 1 and `top` that the part of a text from `from` to
/// `to` writes, or why it writes none. The white space at the ends of the
/// part does not count.
pub open spec fn parse_item(s: Seq<char>, from: int, to: int, top: int) -> Result<
    int,
    InputErrorView,
> {
    let t = trimmed(s, from, to);
    match parse_unsigned(t, usize::MAX as int) {
        None => Err(InputErrorView::Unparsable(t)),
        Some(n) => if 1 <= n <= top {
            Ok(n)
        } else {
            Err(InputErrorView::OutOfRange(n))
        },
    }
}

/// The numbers between 1 and `top` that a text writes from `from` on,
/// separated by commas; or what is wrong with the first part that writes
/// none.
pub open spec fn parse_list(s: Seq<char>, from: int, top: int) -> Result<Seq<int>, InputErrorView>
    decreases s.len() - from,
{
    let end = comma_at(s, from);
    match parse_item(s, from, end, top) {
        Err(e) => Err(e),
        Ok(n) => if from < 0 || end >= s.len() {
            Ok(seq![n])
        } else {
            proof {
                lemma_comma_at_least(s, from);
            }
            match parse_list(s, end + 1, top) {
                Err(e) => Err(e),
                Ok(rest) => Ok(seq![n] + rest),
            }
        },
    }
}

/// The first comma at or after a place is not before it.
pub proof fn lemma_comma_at_least(s: Seq<char>, from: int)
    ensures
        comma_at(s, from) >= from,
    decreases s.len() - from,
{
    if 0 <= from < s.len() && s[from] != ',' {
        lemma_comma_at_least(s, from + 1);
    }
}

/// Numbers as numbers without bounds.
pub open spec fn as_ints(v: Seq<usize>) -> Seq<int> {
    Seq::new(v.len(), |i: int| v[i] as int)
}

/// The hero that a line of input chooses: the line is a number from 1 to 6,
/// with white space around it at most, and the heroes are numbered in the
/// order in which they are offered. A line that is no number is given back
/// whole.
pub open spec fn parse_hero(s: Seq<char>) -> Result<HeroView, InputErrorView> {
    match parse_unsigned(trimmed(s, 0, s.len() as int), u8::MAX as int) {
        None => Err(InputErrorView::Unparsable(s)),
        Some(n) => if 1 <= n <= HERO_CHOICES {
            Ok(HeroView::fresh(kind_at(n - 1)))
        } else {
            Err(InputErrorView::OutOfRange(n))
        },
    }
}

/// More digits never write a smaller number.
pub proof fn lemma_digits_value_grows(s: Seq<char>, k: int)
    requires
        all_digits(s),
        0 <= k <= s.len(),
    ensures
        0 <= digits_value(s.take(k)) <= digits_value(s),
    decreases s.len() - k,
{
    if k == s.len() {
        assert(s.take(k) =~= s);
        lemma_digits_value_nonneg(s);
    } else {
        lemma_digits_value_grows(s, k + 1);
        let t = s.take(k + 1);
        assert(t.drop_last() =~= s.take(k));
        assert(t.last() == s[k]);
        assert(is_digit(s[k]));
        assert(all_digits(s.take(k))) by {
            assert forall|i: int| 0 <= i < s.take(k).len() implies is_digit(#[trigger] s.take(k)[i]) by {
                assert(s.take(k)[i] == s[i]);
            }
        }
        lemma_digits_value_nonneg(s.take(k));
    }
}

/// Digits write no negative number.
pub proof fn lemma_digits_value_nonneg(s: Seq<char>)
    requires
        all_digits(s),
    ensures
        0 <= digits_value(s),
    decreases s.len(),
{
    if s.len() > 0 {
        assert(all_digits(s.drop_last())) by {
            assert forall|i: int| 0 <= i < s.drop_last().len() implies is_digit(
                #[trigger] s.drop_last()[i],
            ) by {
                assert(s.drop_last()[i] == s[i]);
            }
        }
        lemma_digits_value_nonneg(s.drop_last());
        assert(is_digit(s.last()));
    }
}

/// Whether a character is white space.
pub fn char_is_space(c: char) -> (b: bool)
    ensures
        b == is_space(c),
{
    let n = c as u32;
    (0x09 <= n && n <= 0x0D) || n == 0x20 || n == 0x85 || n == 0xA0 || n == 0x1680 || (0x2000 <= n
        && n <= 0x200A) || n == 0x2028 || n == 0x2029 || n == 0x202F || n == 0x205F || n == 0x3000
}

/// The characters of a text, one by one.
pub fn chars_of(s: &str) -> (v: Vec<char>)
    ensures
        v@ == s@,
{
    let n = s.unicode_len();
    let mut v: Vec<char> = Vec::new();
    let mut i: usize = 0;
    while i < n
        invariant
            n == s@.len(),
            i <= n,
            v@ == s@.take(i as int),
        decreases n - i,
    {
        v.push(s.get_char(i));
        assert(s@.take(i + 1) =~= s@.take(i as int).push(s@[i as int]));
        i = i + 1;
    }
    assert(s@.take(n as int) =~= s@);
    v
}

/// The bounds of the part of a text from `from` to `to` without the white
/// space at its two ends.
pub fn trim_bounds(chars: &Vec<char>, from: usize, to: usize) -> (r: (usize, usize))
    requires
        from <= to <= chars.len(),
    ensures
        from <= r.0 <= r.1 <= to,
        chars@.subrange(r.0 as int, r.1 as int) == trimmed(chars@, from as int, to as int),
{
    let ghost part = chars@.subrange(from as int, to as int);
    let mut a = from;
    while a < to && char_is_space(chars[a])
        invariant
            from <= a <= to <= chars.len(),
            part == chars@.subrange(from as int, to as int),
            skip_spaces(part, 0) == skip_spaces(part, a - from),
        decreases to - a,
    {
        assert(part[a - from] == chars@[a as int]);
        a = a + 1;
    }
    proof {
        if a < to {
            assert(part[a - from] == chars@[a as int]);
        }
        assert(skip_spaces(part, 0) == a - from);
    }
    let mut b = to;
    while a < b && char_is_space(chars[b - 1])
        invariant
            from <= a <= b <= to <= chars.len(),
            part == chars@.subrange(from as int, to as int),
            drop_spaces(part, a - from, to - from) == drop_spaces(part, a - from, b - from),
        decreases b - a,
    {
        assert(part[b - from - 1] == chars@[b - 1]);
        b = b - 1;
    }
    proof {
        if a < b {
            assert(part[b - from - 1] == chars@[b - 1]);
        }
        assert(drop_spaces(part, a - from, to - from) == b - from);
    }
    (a, b)
}

/// The number that the part of a text from `from` to `to` writes, if it
/// writes one that is at most `max`.
pub fn parse_number(chars: &Vec<char>, from: usize, to: usize, max: usize) -> (r: Option<usize>)
    requires
        from <= to <= chars.len(),
    ensures
        r is Some <==> parse_unsigned(chars@.subrange(from as int, to as int), max as int) is Some,
        r matches Some(n) ==> parse_unsigned(chars@.subrange(from as int, to as int), max as int)
            == Some(n as int),
{
    let ghost s = chars@.subrange(from as int, to as int);
    let start = if from < to && chars[from] == '+' {
        from + 1
    } else {
        from
    };
    let ghost body = chars@.subrange(start as int, to as int);
    proof {
        if from < to {
            assert(s[0] == chars@[from as int]);
        }
        if start == from {
            assert(body =~= s);
        } else {
            assert(body =~= s.drop_first());
        }
    }
    if start == to {
        return None;
    }
    let mut acc: usize = 0;
    let mut i = start;
    assert(body.take(0) =~= Seq::<char>::empty());
    while i < to
        invariant
            start <= i <= to <= chars.len(),
            body == chars@.subrange(start as int, to as int),
            body.len() > 0,
            parse_unsigned(chars@.subrange(from as int, to as int), max as int) == (if all_digits(
                body,
            ) && digits_value(body) <= max {
                Some(digits_value(body))
            } else {
                None
            }),
            all_digits(body.take(i - start)),
            acc == digits_value(body.take(i - start)),
            acc <= max,
        decreases to - i,
    {
        let c = chars[i];
        let n = c as u32;
        let ghost k = i - start;
        assert(body[k] == c);
        if n < 0x30 || n > 0x39 {
            assert(!all_digits(body));
            return None;
        }
        let d = (n - 0x30) as usize;
        proof {
            let next = body.take(k + 1);
            assert(next.drop_last() =~= body.take(k));
            assert(next.last() == c);
            assert(digits_value(next) == acc * 10 + d);
            assert(all_digits(next)) by {
                assert forall|j: int| 0 <= j < next.len() implies is_digit(#[trigger] next[j]) by {
                    if j < k {
                        assert(next[j] == body.take(k)[j]);
                    }
                }
            }
            if acc * 10 + d > max && all_digits(body) {
                lemma_digits_value_grows(body, k + 1);
            }
        }
        if d > max || acc > (max - d) / 10 {
            return None;
        }
        acc = acc * 10 + d;
        i = i + 1;
    }
    assert(body.take(to - start) =~= body);
    Some(acc)
}

/// The number between 1 and `top` that a part of a line writes, or why it
/// writes none. `line` is the text of which `chars` holds the characters.
pub fn parse_item_in(line: &str, chars: &Vec<char>, from: usize, to: usize, top: u8) -> (r: Result<
    usize,
    InputError,
>)
    requires
        chars@ == line@,
        from <= to <= chars.len(),
    ensures
        r is Ok <==> parse_item(line@, from as int, to as int, top as int) is Ok,
        r matches Ok(n) ==> parse_item(line@, from as int, to as int, top as int) == Ok::<
            int,
            InputErrorView,
        >(n as int),
        r matches Err(e) ==> parse_item(line@, from as int, to as int, top as int) == Err::<
            int,
            InputErrorView,
        >(e@),
{
    let (a, b) = trim_bounds(chars, from, to);
    match parse_number(chars, a, b, usize::MAX) {
        None => Err(InputError::Unparsable(line.substring_char(a, b).to_owned())),
        Some(n) => if 1 <= n && n <= top as usize {
            Ok(n)
        } else {
            Err(InputError::OutOfRange(n))
        },
    }
}

/// The place of the first comma at or after `from`, or the length of the
/// text.
pub fn find_comma(chars: &Vec<char>, from: usize) -> (end: usize)
    requires
        from <= chars.len(),
    ensures
        end == comma_at(chars@, from as int),
        from <= end <= chars.len(),
{
    let mut end = from;
    while end < chars.len() && chars[end] != ','
        invariant
            from <= end <= chars.len(),
            comma_at(chars@, from as int) == comma_at(chars@, end as int),
        decreases chars.len() - end,
    {
        end = end + 1;
    }
    end
}

/// Reads the numbers of the wheels to lock from a line: numbers from 1 to 5,
/// separated by commas, with white space around them at most. The first part
/// that is no such number makes the whole line fail.
pub fn parse_lock_numbers(input: &str) -> (r: Result<Vec<usize>, InputError>)
    ensures
        r is Ok <==> parse_list(input@, 0, WHEELS as int) is Ok,
        r matches Ok(v) ==> parse_list(input@, 0, WHEELS as int) == Ok::<Seq<int>, InputErrorView>(
            as_ints(v@),
        ) && forall|i: int| 0 <= i < v.len() ==> 1 <= #[trigger] v[i] <= WHEELS,
        r matches Err(e) ==> parse_list(input@, 0, WHEELS as int) == Err::<
            Seq<int>,
            InputErrorView,
        >(e@),
{
    let chars = chars_of(input);
    let mut out: Vec<usize> = Vec::new();
    let mut pos: usize = 0;
    proof {
        let whole = parse_list(input@, 0, WHEELS as int);
        if whole is Ok {
            assert(as_ints(out@) + whole->Ok_0 =~= whole->Ok_0);
        }
    }
    loop
        invariant
            chars@ == input@,
            pos <= chars.len(),
            forall|i: int| 0 <= i < out.len() ==> 1 <= #[trigger] out[i] <= WHEELS,
            match parse_list(input@, pos as int, WHEELS as int) {
                Err(e) => parse_list(input@, 0, WHEELS as int) == Err::<Seq<int>, InputErrorView>(
                    e,
                ),
                Ok(rest) => parse_list(input@, 0, WHEELS as int) == Ok::<Seq<int>, InputErrorView>(
                    as_ints(out@) + rest,
                ),
            },
        decreases chars.len() - pos,
    {
        let end = find_comma(&chars, pos);
        match parse_item_in(input, &chars, pos, end, WHEELS) {
            Err(e) => {
                return Err(e);
            },
            Ok(n) => {
                let ghost before = as_ints(out@);
                out.push(n);
                assert(as_ints(out@) =~= before + seq![n as int]);
                if end >= chars.len() {
                    return Ok(out);
                }
                proof {
                    let rest = parse_list(input@, end + 1, WHEELS as int);
                    if rest is Ok {
                        assert(before + (seq![n as int] + rest->Ok_0) =~= as_ints(out@) + rest->Ok_0);
                    }
                }
                pos = end + 1;
            },
        }
    }
}

/// The locks after the wheels with the numbers given have been locked as
/// well; the wheels are numbered from 1.
pub open spec fn locked_by(locks: Seq<bool>, numbers: Seq<usize>) -> Seq<bool> {
    Seq::new(locks.len(), |i: int| locks[i] || numbers.contains((i + 1) as usize))
}

/// Locks the wheels with the numbers given; a wheel that was locked stays
/// so.
pub fn set_locks(locks: &mut [bool; 5], numbers: &Vec<usize>)
    requires
        forall|i: int| 0 <= i < numbers.len() ==> 1 <= #[trigger] numbers[i] <= WHEELS,
    ensures
        final(locks)@ == locked_by(old(locks)@, numbers@),
{
    let mut k: usize = 0;
    while k < numbers.len()
        invariant
            k <= numbers.len(),
            forall|i: int| 0 <= i < numbers.len() ==> 1 <= #[trigger] numbers[i] <= WHEELS,
            locks@ == locked_by(old(locks)@, numbers@.take(k as int)),
        decreases numbers.len() - k,
    {
        let n = numbers[k];
        let ghost before = locks@;
        locks[n - 1] = true;
        proof {
            let taken = numbers@.take(k as int);
            let more = numbers@.take(k + 1);
            assert(more =~= taken.push(n));
            assert forall|i: int| 0 <= i < 5 implies locks@[i] == (old(locks)@[i] || more.contains(
                (i + 1) as usize,
            )) by {
                let w = (i + 1) as usize;
                if taken.contains(w) {
                    let j = choose|j: int| 0 <= j < taken.len() && taken[j] == w;
                    assert(more[j] == w);
                }
                if more.contains(w) && !taken.contains(w) {
                    let j = choose|j: int| 0 <= j < more.len() && more[j] == w;
                    if j < taken.len() {
                        assert(taken[j] == w);
                    }
                    assert(w == n);
                }
                if i == n - 1 {
                    assert(more[k as int] == n);
                }
                assert(before[i] == (old(locks)@[i] || taken.contains(w)));
            }
            assert(locks@ =~= locked_by(old(locks)@, more));
        }
        k = k + 1;
    }
    assert(numbers@.take(numbers.len() as int) =~= numbers@);
    proof {
        if numbers.len() == 0 {
            assert(locks@ =~= locked_by(old(locks)@, numbers@));
        }
    }
}

impl Hero {
    /// Reads the choice of a hero from a line: a number from 1 to 6, for the
    /// heroes in the order in which they are offered.
    pub fn parse_choice(input: &str) -> (r: Result<Hero, InputError>)
        ensures
            r is Ok <==> parse_hero(input@) is Ok,
            r matches Ok(h) ==> parse_hero(input@) == Ok::<HeroView, InputErrorView>(h@),
            r matches Err(e) ==> parse_hero(input@) == Err::<HeroView, InputErrorView>(e@),
    {
        let chars = chars_of(input);
        let (a, b) = trim_bounds(&chars, 0, chars.len());
        match parse_number(&chars, a, b, 255) {
            None => Err(InputError::Unparsable(input.to_owned())),
            Some(n) => if 1 <= n && n <= HERO_CHOICES as usize {
                Ok(Hero::pick((n - 1) as u8))
            } else {
                Err(InputError::OutOfRange(n))
            },
        }
    }
}

} // verus!
