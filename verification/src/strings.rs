//! Text as sequences of characters: comparison, building, and decimal
//! numbers as they are written and read.

use vstd::prelude::*;
use itertools::Itertools;

verus! {

/// `String::push` appends one character to the end of the string.
pub assume_specification[ String::push ](s: &mut String, c: char)
    ensures
        final(s)@ == old(s)@.push(c),
;

/// The characters of `s`, in order.
pub fn chars_of(s: &str) -> (chars: Vec<char>)
    ensures
        chars@ == s@,
{
    let mut chars: Vec<char> = Vec::new();
    for c in it: s.chars()
        invariant
            chars@ == it.seq().take(it.index() as int),
            it.seq() == s@,
    {
        chars.push(c);
    }
    chars
}

/// Appends the characters `chars[from..]` to `out`.
pub fn push_chars(out: &mut String, chars: &Vec<char>, from: usize)
    requires
        from <= chars.len(),
    ensures
        final(out)@ == old(out)@ + chars@.skip(from as int),
{
    let mut i: usize = from;
    while i < chars.len()
        invariant
            from <= i <= chars.len(),
            out@ == old(out)@ + chars@.subrange(from as int, i as int),
        decreases chars.len() - i,
    {
        out.push(chars[i]);
        i += 1;
    }
    assert(chars@.subrange(from as int, chars.len() as int) == chars@.skip(from as int));
}

/// Whether two sequences of characters are the same.
pub fn same_chars(a: &Vec<char>, b: &Vec<char>) -> (same: bool)
    ensures
        same == (a@ == b@),
{
    if a.len() != b.len() {
        return false;
    }
    let mut i: usize = 0;
    while i < a.len()
        invariant
            i <= a.len(),
            a.len() == b.len(),
            forall|k: int| 0 <= k < i ==> a@[k] == b@[k],
        decreases a.len() - i,
    {
        if a[i] != b[i] {
            return false;
        }
        i += 1;
    }
    assert(a@ =~= b@);
    true
}

/// Whether two texts are the same, character for character.
pub fn same_text(a: &str, b: &str) -> (same: bool)
    ensures
        same == (a@ == b@),
{
    let a_chars = chars_of(a);
    let b_chars = chars_of(b);
    same_chars(&a_chars, &b_chars)
}

/// Appends `piece` to `out`.
pub fn push_text(out: &mut String, piece: &str)
    ensures
        final(out)@ == old(out)@ + piece@,
{
    let chars = chars_of(piece);
    push_chars(out, &chars, 0);
}

/// `s` without its last `n` characters; empty where `s` is no longer than that.
pub open spec fn spec_without_last(s: Seq<char>, n: nat) -> Seq<char> {
    if s.len() <= n {
        Seq::empty()
    } else {
        s.take(s.len() - n)
    }
}

/// `s` without its last `n` characters; empty where `s` is no longer than that.
pub fn without_last(s: &str, n: usize) -> (text: String)
    ensures
        text@ == spec_without_last(s@, n as nat),
{
    let chars = chars_of(s);
    let mut text = String::new();
    if chars.len() > n {
        let keep = chars.len() - n;
        let mut i: usize = 0;
        while i < keep
            invariant
                i <= keep <= chars.len(),
                text@ == chars@.take(i as int),
            decreases keep - i,
        {
            text.push(chars[i]);
            i += 1;
        }
    }
    text
}

/// The character that writes the digit `d`.
pub open spec fn digit_char(d: int) -> char
    recommends
        0 <= d <= 9,
{
    (('0' as u8) + d) as u8 as char
}

/// Whether `c` is one of `0` to `9`.
pub open spec fn is_digit(c: char) -> bool {
    '0' <= c <= '9'
}

/// Whether every character of `s` is a digit.
pub open spec fn all_digits(s: Seq<char>) -> bool {
    forall|i: int| 0 <= i < s.len() ==> is_digit(#[trigger] s[i])
}

/// How a natural number is written: no sign, no leading zero but for zero
/// itself.
pub open spec fn decimal(n: nat) -> Seq<char>
    decreases n,
{
    if n < 10 {
        seq![digit_char(n as int)]
    } else {
        decimal(n / 10).push(digit_char((n % 10) as int))
    }
}

/// How an integer is written: a minus sign before a negative one.
pub open spec fn signed_decimal(v: int) -> Seq<char> {
    if v < 0 {
        seq!['-'] + decimal((-v) as nat)
    } else {
        decimal(v as nat)
    }
}

/// The number that a run of digits writes; leading zeros count for nothing.
pub open spec fn digits_value(s: Seq<char>) -> nat
    decreases s.len(),
{
    if s.len() == 0 {
        0
    } else {
        digits_value(s.drop_last()) * 10 + ((s.last() as u32) - ('0' as u32)) as nat
    }
}

/// The integer that `s` writes: an optional `+` or `-`, then one digit or
/// more, and nothing else. `None` for any other text.
pub open spec fn parse_int(s: Seq<char>) -> Option<int> {
    if s.len() == 0 {
        None
    } else if s[0] == '-' {
        if s.len() > 1 && all_digits(s.skip(1)) {
            Some(-(digits_value(s.skip(1)) as int))
        } else {
            None
        }
    } else if s[0] == '+' {
        if s.len() > 1 && all_digits(s.skip(1)) {
            Some(digits_value(s.skip(1)) as int)
        } else {
            None
        }
    } else if all_digits(s) {
        Some(digits_value(s) as int)
    } else {
        None
    }
}

/// The integer that `s` writes, where it lies between `low` and `high`.
pub open spec fn parse_within(s: Seq<char>, low: int, high: int) -> Option<int> {
    match parse_int(s) {
        Some(v) => if low <= v <= high {
            Some(v)
        } else {
            None
        },
        None => None,
    }
}

/// More digits never write a smaller number.
pub proof fn lemma_digits_value_grows(s: Seq<char>, n: int)
    requires
        0 <= n <= s.len(),
    ensures
        digits_value(s.take(n)) <= digits_value(s),
    decreases s.len() - n,
{
    if n == s.len() {
        assert(s.take(n) == s);
    } else {
        lemma_digits_value_grows(s, n + 1);
        assert(s.take(n + 1).drop_last() == s.take(n));
        assert(digits_value(s.take(n + 1)) >= digits_value(s.take(n)) * 10);
    }
}

/// A written natural number is all digits, and reads back as itself.
pub proof fn lemma_decimal_reads_back(n: nat)
    ensures
        decimal(n).len() >= 1,
        all_digits(decimal(n)),
        digits_value(decimal(n)) == n,
        decimal(n)[0] != '-',
        decimal(n)[0] != '+',
    decreases n,
{
    if n < 10 {
        let s = decimal(n);
        assert(s.drop_last() == Seq::<char>::empty());
        assert(digits_value(s.drop_last()) == 0);
    } else {
        lemma_decimal_reads_back(n / 10);
        let head = decimal(n / 10);
        let s = decimal(n);
        assert(s.drop_last() == head);
        assert(s.last() == digit_char((n % 10) as int));
        assert forall|i: int| 0 <= i < s.len() implies is_digit(#[trigger] s[i]) by {
            if i < head.len() {
                assert(s[i] == head[i]);
            }
        }
        assert(s[0] == head[0]);
    }
}

/// Reading what was written gives the integer back.
pub proof fn lemma_parse_signed_decimal(v: int)
    ensures
        parse_int(signed_decimal(v)) == Some(v),
{
    if v < 0 {
        let body = decimal((-v) as nat);
        lemma_decimal_reads_back((-v) as nat);
        let s = signed_decimal(v);
        assert(s.skip(1) == body);
        assert(s[0] == '-');
    } else {
        lemma_decimal_reads_back(v as nat);
    }
}

/// Appends `n` in decimal to `out`.
pub fn push_decimal(out: &mut String, n: u64)
    ensures
        final(out)@ == old(out)@ + decimal(n as nat),
    decreases n,
{
    if n >= 10 {
        push_decimal(out, n / 10);
    }
    let d: u8 = (n % 10) as u8;
    let c: char = (48u8 + d) as char;
    assert(c == digit_char((n % 10) as int));
    out.push(c);
    proof {
        if n < 10 {
            assert(old(out)@ + decimal(n as nat) == old(out)@.push(c));
        } else {
            assert(old(out)@ + decimal(n as nat) == (old(out)@ + decimal((n / 10) as nat)).push(c));
        }
    }
}

/// Appends `v` in decimal to `out`, with a minus sign where it is negative.
pub fn push_signed_decimal(out: &mut String, v: i64)
    ensures
        final(out)@ == old(out)@ + signed_decimal(v as int),
{
    if v < 0 {
        out.push('-');
        let magnitude: u64 = if v == i64::MIN {
            9223372036854775808u64
        } else {
            (-v) as u64
        };
        push_decimal(out, magnitude);
        assert(old(out)@.push('-') + decimal(magnitude as nat) == old(out)@ + (seq!['-'] + decimal(
            magnitude as nat,
        )));
    } else {
        push_decimal(out, v as u64);
    }
}

/// The greatest magnitude of a number that is read: that of the least
/// `i64`.
pub const GREATEST_MAGNITUDE: u64 = 0x8000_0000_0000_0000;

/// Reads digits `chars[from..]` as a number no greater than the greatest
/// magnitude.
fn read_digits(chars: &Vec<char>, from: usize) -> (value: Option<u64>)
    requires
        from <= chars.len(),
    ensures
        value == (if all_digits(chars@.skip(from as int)) && digits_value(chars@.skip(from as int))
            <= GREATEST_MAGNITUDE {
            Some(digits_value(chars@.skip(from as int)) as u64)
        } else {
            None::<u64>
        }),
{
    let ghost body = chars@.skip(from as int);
    let mut acc: u64 = 0;
    let mut i: usize = from;
    while i < chars.len()
        invariant
            from <= i <= chars.len(),
            body == chars@.skip(from as int),
            all_digits(body.take(i - from)),
            acc == digits_value(body.take(i - from)),
            acc <= GREATEST_MAGNITUDE,
        decreases chars.len() - i,
    {
        let c = chars[i];
        let ghost next = body.take(i - from + 1);
        proof {
            assert(next.drop_last() == body.take(i - from));
            assert(next.last() == c);
        }
        if !('0' <= c && c <= '9') {
            assert(!is_digit(body[i - from]));
            return None;
        }
        let d: u128 = (c as u32 - '0' as u32) as u128;
        let grown: u128 = acc as u128 * 10 + d;
        assert(grown == digits_value(next));
        if grown > GREATEST_MAGNITUDE as u128 {
            proof {
                lemma_digits_value_grows(body, i - from + 1);
            }
            return None;
        }
        assert forall|k: int| 0 <= k < next.len() implies is_digit(#[trigger] next[k]) by {
            if k < i - from {
                assert(next[k] == body.take(i - from)[k]);
            }
        }
        acc = grown as u64;
        i += 1;
    }
    assert(body.take(chars.len() - from) == body);
    Some(acc)
}

/// The number of the given sign and magnitude, where it lies between `low`
/// and `high`.
fn within_bounds(negative: bool, magnitude: u64, low: i64, high: i64) -> (value: Option<i64>)
    requires
        magnitude <= GREATEST_MAGNITUDE,
    ensures
        value == (if low <= (if negative {
            -(magnitude as int)
        } else {
            magnitude as int
        }) <= high {
            Some(
                (if negative {
                    -(magnitude as int)
                } else {
                    magnitude as int
                }) as i64,
            )
        } else {
            None::<i64>
        }),
{
    let signed: i128 = if negative {
        -(magnitude as i128)
    } else {
        magnitude as i128
    };
    if low as i128 <= signed && signed <= high as i128 {
        Some(signed as i64)
    } else {
        None
    }
}

/// Reads `chars[from..]` as an integer between `low` and `high`: an
/// optional sign, then digits only. Anything else, or a number outside the
/// bounds, is `None`.
pub fn parse_chars(chars: &Vec<char>, from: usize, low: i64, high: i64) -> (value: Option<i64>)
    requires
        from <= chars.len(),
    ensures
        value.is_some() == parse_within(chars@.skip(from as int), low as int, high as int).is_some(),
        value.is_some() ==> value.unwrap() as int == parse_within(
            chars@.skip(from as int),
            low as int,
            high as int,
        ).unwrap(),
{
    let ghost body = chars@.skip(from as int);
    if chars.len() == from {
        return None;
    }
    assert(body[0] == chars@[from as int]);
    assert(body.skip(1) == chars@.skip(from + 1));
    if chars[from] == '-' {
        if chars.len() == from + 1 {
            return None;
        }
        match read_digits(chars, from + 1) {
            Some(magnitude) => within_bounds(true, magnitude, low, high),
            None => None,
        }
    } else if chars[from] == '+' {
        if chars.len() == from + 1 {
            return None;
        }
        match read_digits(chars, from + 1) {
            Some(magnitude) => within_bounds(false, magnitude, low, high),
            None => None,
        }
    } else {
        match read_digits(chars, from) {
            Some(magnitude) => within_bounds(false, magnitude, low, high),
            None => None,
        }
    }
}

/// Reads `s` as an integer between `low` and `high`: an optional sign, then
/// digits only. Anything else, or a number outside the bounds, is `None`.
pub fn parse_bounded(s: &str, low: i64, high: i64) -> (value: Option<i64>)
    ensures
        value.is_some() == parse_within(s@, low as int, high as int).is_some(),
        value.is_some() ==> value.unwrap() as int == parse_within(
            s@,
            low as int,
            high as int,
        ).unwrap(),
{
    let chars = chars_of(s);
    assert(chars@.skip(0) == chars@);
    parse_chars(&chars, 0, low, high)
}

/// Whether `chars[from..]` is the text `literal`.
pub fn chars_are(chars: &Vec<char>, from: usize, literal: &str) -> (same: bool)
    requires
        from <= chars.len(),
    ensures
        same == (chars@.skip(from as int) == literal@),
{
    let wanted = chars_of(literal);
    let ghost body = chars@.skip(from as int);
    if chars.len() - from != wanted.len() {
        return false;
    }
    let mut i: usize = 0;
    while i < wanted.len()
        invariant
            i <= wanted.len(),
            from <= chars.len(),
            chars.len() - from == wanted.len(),
            body == chars@.skip(from as int),
            wanted@ == literal@,
            forall|k: int| 0 <= k < i ==> body[k] == wanted@[k],
        decreases wanted.len() - i,
    {
        assert(body[i as int] == chars@[from + i]);
        if chars[from + i] != wanted[i] {
            return false;
        }
        i += 1;
    }
    assert(body =~= wanted@);
    true
}

/// The texts of `names` in one, with `separator` between two.
pub open spec fn spec_join(names: Seq<Seq<char>>, separator: Seq<char>) -> Seq<char>
    decreases names.len(),
{
    if names.len() == 0 {
        Seq::empty()
    } else if names.len() == 1 {
        names[0]
    } else {
        spec_join(names.drop_last(), separator) + separator + names.last()
    }
}

/// The characters of each text of `texts`.
pub open spec fn seq_views(texts: Seq<&'static str>) -> Seq<Seq<char>> {
    Seq::new(texts.len(), |i: int| texts[i]@)
}

/// The texts of `names` in one, with `separator` between two.
pub fn join_texts(names: &Vec<&'static str>, separator: &str) -> (text: String)
    ensures
        text@ == spec_join(seq_views(names@), separator@),
{
    let mut text = String::new();
    let ghost views = seq_views(names@);
    let mut i: usize = 0;
    while i < names.len()
        invariant
            i <= names.len(),
            views == seq_views(names@),
            text@ == spec_join(views.take(i as int), separator@),
        decreases names.len() - i,
    {
        proof {
            assert(views.take(i + 1).drop_last() == views.take(i as int));
            assert(views.take(i + 1).last() == names@[i as int]@);
        }
        if i > 0 {
            push_text(&mut text, separator);
        }
        push_text(&mut text, names[i]);
        i += 1;
    }
    assert(views.take(names.len() as int) == views);
    text
}

/// The lower-case form of a text, as `str::to_lowercase` gives it.
pub uninterp spec fn lowercase_of(text: Seq<char>) -> Seq<char>;

/// `str::to_lowercase`: the lower-case form of `text`, which depends on the
/// text alone. Nothing more is claimed of it than that it has this name.
#[verifier::external_body]
fn to_lowercase(text: &str) -> (lower: String)
    ensures
        lower@ == lowercase_of(text@),
{
    text.to_lowercase()
}

/// The key by which names are put in order: the lower-case form.
pub(crate) fn lowercase_key(name: &str) -> (key: String)
    ensures
        key@ == lowercase_of(name@),
{
    to_lowercase(name)
}

/// Whether `a` comes before `b` or is `b`, in the order of the dictionary
/// over the characters' numbers: the order in which strings compare.
pub open spec fn text_le(a: Seq<char>, b: Seq<char>) -> bool
    decreases a.len(),
{
    if a.len() == 0 {
        true
    } else if b.len() == 0 {
        false
    } else if a[0] != b[0] {
        (a[0] as u32) < (b[0] as u32)
    } else {
        text_le(a.drop_first(), b.drop_first())
    }
}

/// Whether `a` stands before `b` among the characters.
pub fn char_before(a: char, b: char) -> (before: bool)
    ensures
        before == ((a as u32) < (b as u32)),
{
    (a as u32) < (b as u32)
}

/// Where one text stands to another in the order in which strings compare.
#[derive(Clone, Copy, Debug, PartialEq, Eq, Structural)]
pub enum TextOrder {
    Before,
    Same,
    After,
}

/// Which of two texts comes first in the order in which strings compare.
pub fn text_order(a: &Vec<char>, b: &Vec<char>) -> (order: TextOrder)
    ensures
        (order == TextOrder::Same) == (a@ == b@),
        (order == TextOrder::After) == !text_le(a@, b@),
{
    let mut i: usize = 0;
    assert(a@.skip(0) == a@ && b@.skip(0) == b@);
    while i < a.len() && i < b.len()
        invariant
            i <= a.len(),
            i <= b.len(),
            forall|k: int| 0 <= k < i ==> a@[k] == b@[k],
            text_le(a@, b@) == text_le(a@.skip(i as int), b@.skip(i as int)),
        decreases a.len() - i,
    {
        proof {
            assert(a@.skip(i as int)[0] == a@[i as int]);
            assert(b@.skip(i as int)[0] == b@[i as int]);
            assert(a@.skip(i as int).drop_first() == a@.skip(i + 1));
            assert(b@.skip(i as int).drop_first() == b@.skip(i + 1));
        }
        if a[i] != b[i] {
            return if char_before(a[i], b[i]) {
                TextOrder::Before
            } else {
                TextOrder::After
            };
        }
        i += 1;
    }
    if a.len() == b.len() {
        assert(a@ =~= b@);
        TextOrder::Same
    } else if i == a.len() {
        TextOrder::Before
    } else {
        TextOrder::After
    }
}

/// Whether the lower-case forms of `names` rise, or stay, from each to the
/// next.
pub open spec fn in_lowercase_order(names: Seq<Seq<char>>) -> bool {
    forall|i: int, j: int|
        0 <= i < j < names.len() ==> text_le(
            lowercase_of(#[trigger] names[i]),
            lowercase_of(#[trigger] names[j]),
        )
}

/// `Itertools::sorted_unstable_by_key`, with the lower-case form as the
/// key: it collects the items and sorts them with
/// `slice::sort_unstable_by_key`. Claimed: the result holds the same names,
/// each as often as before, and their keys do not fall from one to the
/// next, in the order in which `String`s compare. Which of two names with
/// one key comes first is left open.
#[verifier::external_body]
pub(crate) fn sorted_by_lowercase(names: Vec<&'static str>) -> (sorted: Vec<&'static str>)
    ensures
        seq_views(sorted@).to_multiset() == seq_views(names@).to_multiset(),
        in_lowercase_order(seq_views(sorted@)),
{
    names.into_iter().sorted_unstable_by_key(|name| lowercase_key(name)).collect()
}

} // verus!
