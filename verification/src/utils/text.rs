//! Text building blocks: decimal and hexadecimal numerals and name/value lists.

use vstd::prelude::*;
use vstd::string::StringExecFns;

verus! {

/// `String::push` of std appends one character to the end of the string.
pub assume_specification[ String::push ](s: &mut String, c: char)
    ensures
        final(s)@ == old(s)@.push(c),
;

/// `str`'s `eq` of std holds exactly of two texts with the same characters.
pub assume_specification[ <str as PartialEq>::eq ](a: &str, b: &str) -> (r: bool)
    ensures
        r == (a@ == b@),
;

/// The character of a decimal digit.
pub open spec fn digit_char(d: int) -> char
    recommends
        0 <= d < 10,
{
    ((48 + d) as u8) as char
}

/// The character of a hexadecimal digit, in lower case.
pub open spec fn hex_char(d: int) -> char
    recommends
        0 <= d < 16,
{
    if d < 10 {
        digit_char(d)
    } else {
        ((87 + d) as u8) as char
    }
}

/// The decimal numeral of a natural number, without leading zeros.
pub open spec fn natural_digits(n: nat) -> Seq<char>
    decreases n,
{
    if n < 10 {
        seq![digit_char(n as int)]
    } else {
        natural_digits(n / 10).push(digit_char((n % 10) as int))
    }
}

/// The decimal numeral of an integer, with a minus sign before a negative one.
pub open spec fn decimal(n: int) -> Seq<char> {
    if n < 0 {
        seq!['-'] + natural_digits((-n) as nat)
    } else {
        natural_digits(n as nat)
    }
}

/// Two lower-case hexadecimal digits for each byte, the high one first.
pub open spec fn hex_lower(bytes: Seq<u8>) -> Seq<char>
    decreases bytes.len(),
{
    if bytes.len() == 0 {
        Seq::empty()
    } else {
        hex_lower(bytes.drop_last()).push(hex_char(bytes.last() as int / 16)).push(
            hex_char(bytes.last() as int % 16),
        )
    }
}

/// Whether a character is a lower-case hexadecimal digit.
pub open spec fn is_lower_hex(c: char) -> bool {
    ('0' <= c && c <= '9') || ('a' <= c && c <= 'f')
}

/// Whether a character is a decimal digit.
pub open spec fn is_digit(c: char) -> bool {
    '0' <= c && c <= '9'
}

/// Whether a character is an ASCII letter or digit.
pub open spec fn is_alphanumeric(c: char) -> bool {
    is_digit(c) || ('a' <= c && c <= 'z') || ('A' <= c && c <= 'Z')
}

/// A list of names with their values, as plain text.
pub type Pairs = Seq<(Seq<char>, Seq<char>)>;

/// The names and values that a list of owned pairs holds.
pub open spec fn pairs_of(list: Seq<(String, String)>) -> Pairs {
    Seq::new(list.len(), |i: int| (list[i].0@, list[i].1@))
}

/// The names and values that a table of fixed pairs holds.
pub open spec fn pairs_of_table(table: Seq<(&'static str, &'static str)>) -> Pairs {
    Seq::new(table.len(), |i: int| (table[i].0@, table[i].1@))
}

/// The value of the first pair with the given name, if there is one.
pub open spec fn first_value(pairs: Pairs, name: Seq<char>) -> Option<Seq<char>>
    decreases pairs.len(),
{
    if pairs.len() == 0 {
        None
    } else if pairs[0].0 == name {
        Some(pairs[0].1)
    } else {
        first_value(pairs.drop_first(), name)
    }
}

/// The value of the last pair with the given name, if there is one.
pub open spec fn last_value(pairs: Pairs, name: Seq<char>) -> Option<Seq<char>>
    decreases pairs.len(),
{
    if pairs.len() == 0 {
        None
    } else if pairs.last().0 == name {
        Some(pairs.last().1)
    } else {
        last_value(pairs.drop_last(), name)
    }
}

/// The pairs written as `name=value` and joined with `&`.
pub open spec fn joined_pairs(pairs: Pairs) -> Seq<char>
    decreases pairs.len(),
{
    if pairs.len() == 0 {
        Seq::empty()
    } else if pairs.len() == 1 {
        pairs[0].0 + seq!['='] + pairs[0].1
    } else {
        joined_pairs(pairs.drop_last()) + seq!['&'] + pairs.last().0 + seq!['='] + pairs.last().1
    }
}

/// The fields of a text that a separator divides, in order. A text with `n`
/// separators has `n + 1` fields, some of which may be empty.
pub open spec fn split(s: Seq<char>, sep: char) -> Seq<Seq<char>>
    decreases s.len(),
{
    if s.len() == 0 {
        seq![Seq::<char>::empty()]
    } else {
        let init = split(s.drop_last(), sep);
        if s.last() == sep {
            init.push(Seq::<char>::empty())
        } else {
            init.update(init.len() - 1, init.last().push(s.last()))
        }
    }
}

/// Every text has at least one field.
pub proof fn lemma_split_is_not_empty(s: Seq<char>, sep: char)
    ensures
        split(s, sep).len() >= 1,
    decreases s.len(),
{
    if s.len() > 0 {
        lemma_split_is_not_empty(s.drop_last(), sep);
    }
}

/// Text without a separator, written behind another text, lengthens that
/// text's last field and touches no other.
pub proof fn lemma_split_extends_last_field(a: Seq<char>, b: Seq<char>, sep: char)
    requires
        !b.contains(sep),
    ensures
        split(a, sep).len() >= 1,
        split(a + b, sep) == split(a, sep).update(
            split(a, sep).len() - 1,
            split(a, sep).last() + b,
        ),
    decreases b.len(),
{
    lemma_split_is_not_empty(a, sep);
    let fields = split(a, sep);
    if b.len() == 0 {
        assert(a + b == a);
        assert(fields.last() + b == fields.last());
        assert(fields.update(fields.len() - 1, fields.last()) == fields);
    } else {
        let shorter = b.drop_last();
        assert(!shorter.contains(sep)) by {
            if shorter.contains(sep) {
                let i = choose|i: int| 0 <= i < shorter.len() && shorter[i] == sep;
                assert(b[i] == sep);
            }
        }
        assert(b.last() != sep) by {
            if b.last() == sep {
                assert(b[b.len() - 1] == sep);
            }
        }
        lemma_split_extends_last_field(a, shorter, sep);
        assert((a + b).drop_last() == a + shorter);
        assert((a + b).last() == b.last());
        assert((fields.last() + shorter).push(b.last()) == fields.last() + b);
    }
}

/// A separator followed by text without one adds that text as a new last field.
pub proof fn lemma_split_adds_field(a: Seq<char>, b: Seq<char>, sep: char)
    requires
        !b.contains(sep),
    ensures
        split(a.push(sep) + b, sep) == split(a, sep).push(b),
{
    let fields = split(a, sep);
    assert(a.push(sep).drop_last() == a);
    assert(split(a.push(sep), sep) == fields.push(Seq::<char>::empty()));
    lemma_split_extends_last_field(a.push(sep), b, sep);
    assert(Seq::<char>::empty() + b == b);
    assert(fields.push(Seq::<char>::empty()).update(fields.len() as int, b) == fields.push(b));
}

/// A text without a separator is its own single field.
pub proof fn lemma_split_of_one_field(s: Seq<char>, sep: char)
    requires
        !s.contains(sep),
    ensures
        split(s, sep) == seq![s],
{
    lemma_split_extends_last_field(Seq::<char>::empty(), s, sep);
    assert(Seq::<char>::empty() + s == s);
    assert(seq![Seq::<char>::empty()].update(0, s) == seq![s]);
}

/// A decimal numeral of a natural number holds digits only, and at least one.
pub proof fn lemma_natural_digits_are_digits(n: nat)
    ensures
        natural_digits(n).len() >= 1,
        forall|i: int|
            0 <= i < natural_digits(n).len() ==> is_digit(#[trigger] natural_digits(n)[i]),
    decreases n,
{
    if n >= 10 {
        lemma_natural_digits_are_digits(n / 10);
    }
}

/// A decimal numeral holds digits behind an optional minus sign.
pub proof fn lemma_decimal_chars(n: int)
    ensures
        decimal(n).len() >= 1,
        forall|i: int|
            0 <= i < decimal(n).len() ==> is_digit(#[trigger] decimal(n)[i]) || decimal(n)[i]
                == '-',
{
    if n < 0 {
        lemma_natural_digits_are_digits((-n) as nat);
    } else {
        lemma_natural_digits_are_digits(n as nat);
    }
}

/// A number of six decimal places has a numeral of six digits.
pub proof fn lemma_six_digits(n: nat)
    requires
        100000 <= n <= 999999,
    ensures
        natural_digits(n).len() == 6,
{
    reveal_with_fuel(natural_digits, 7);
}

/// The hexadecimal form of bytes has two characters for each byte, all of them
/// lower-case hexadecimal digits.
pub proof fn lemma_hex_lower_shape(bytes: Seq<u8>)
    ensures
        hex_lower(bytes).len() == 2 * bytes.len(),
        forall|i: int|
            0 <= i < hex_lower(bytes).len() ==> is_lower_hex(#[trigger] hex_lower(bytes)[i]),
    decreases bytes.len(),
{
    if bytes.len() > 0 {
        lemma_hex_lower_shape(bytes.drop_last());
    }
}

/// Appends the decimal numeral of `n`.
pub fn push_natural(out: &mut String, n: u64)
    ensures
        final(out)@ == old(out)@ + natural_digits(n as nat),
    decreases n,
{
    if n >= 10 {
        push_natural(out, n / 10);
    }
    let d: u8 = (n % 10) as u8;
    out.push((48u8 + d) as char);
}

/// Appends the decimal numeral of `n`.
pub fn push_decimal(out: &mut String, n: i64)
    ensures
        final(out)@ == old(out)@ + decimal(n as int),
{
    if n < 0 {
        out.push('-');
        let magnitude: u64 = ((-(n + 1)) as u64) + 1;
        push_natural(out, magnitude);
        assert(out@ == old(out)@ + (seq!['-'] + natural_digits((-n) as nat)));
    } else {
        push_natural(out, n as u64);
    }
}

/// Appends two lower-case hexadecimal digits for each byte.
pub fn push_hex_lower(out: &mut String, bytes: &Vec<u8>)
    ensures
        final(out)@ == old(out)@ + hex_lower(bytes@),
{
    let mut i: usize = 0;
    while i < bytes.len()
        invariant
            i <= bytes.len(),
            out@ == old(out)@ + hex_lower(bytes@.take(i as int)),
        decreases bytes.len() - i,
    {
        let b: u8 = bytes[i];
        out.push(hex_digit(b / 16));
        out.push(hex_digit(b % 16));
        proof {
            let next = bytes@.take(i + 1);
            assert(next.drop_last() == bytes@.take(i as int));
            assert(next.last() == b);
        }
        i += 1;
    }
    assert(bytes@.take(i as int) == bytes@);
}

/// The lower-case hexadecimal digit of a value below sixteen.
pub fn hex_digit(d: u8) -> (c: char)
    requires
        d < 16,
    ensures
        c == hex_char(d as int),
{
    if d < 10 {
        (48u8 + d) as char
    } else {
        (87u8 + d) as char
    }
}

/// Looks up the first pair with the given name.
pub fn find_first(pairs: &Vec<(String, String)>, name: &str) -> (r: Option<String>)
    ensures
        r.is_some() == first_value(pairs_of(pairs@), name@).is_some(),
        r matches Some(v) ==> Some(v@) == first_value(pairs_of(pairs@), name@),
{
    let ghost all = pairs_of(pairs@);
    let mut i: usize = 0;
    assert(all.skip(0) == all);
    while i < pairs.len()
        invariant
            i <= pairs.len(),
            all == pairs_of(pairs@),
            first_value(all, name@) == first_value(all.skip(i as int), name@),
        decreases pairs.len() - i,
    {
        if pairs[i].0.as_str().eq(name) {
            return Some(pairs[i].1.clone());
        }
        proof {
            assert(all.skip(i as int).drop_first() == all.skip(i + 1));
        }
        i += 1;
    }
    None
}

/// Looks up the last pair with the given name.
pub fn find_last(pairs: &Vec<(String, String)>, name: &str) -> (r: Option<String>)
    ensures
        r.is_some() == last_value(pairs_of(pairs@), name@).is_some(),
        r matches Some(v) ==> Some(v@) == last_value(pairs_of(pairs@), name@),
{
    let ghost all = pairs_of(pairs@);
    let mut i: usize = pairs.len();
    assert(all.take(i as int) == all);
    while i > 0
        invariant
            i <= pairs.len(),
            all == pairs_of(pairs@),
            last_value(all, name@) == last_value(all.take(i as int), name@),
        decreases i,
    {
        i -= 1;
        if pairs[i].0.as_str().eq(name) {
            return Some(pairs[i].1.clone());
        }
        proof {
            assert(all.take(i + 1).drop_last() == all.take(i as int));
        }
    }
    None
}

/// Appends the pairs as `name=value`, joined with `&`.
pub fn push_joined_pairs(out: &mut String, pairs: &Vec<(String, String)>)
    ensures
        final(out)@ == old(out)@ + joined_pairs(pairs_of(pairs@)),
{
    let ghost all = pairs_of(pairs@);
    let mut i: usize = 0;
    while i < pairs.len()
        invariant
            i <= pairs.len(),
            all == pairs_of(pairs@),
            out@ == old(out)@ + joined_pairs(all.take(i as int)),
        decreases pairs.len() - i,
    {
        if i > 0 {
            out.push('&');
        }
        out.append(pairs[i].0.as_str());
        out.push('=');
        out.append(pairs[i].1.as_str());
        proof {
            let next = all.take(i + 1);
            assert(next.drop_last() == all.take(i as int));
            assert(next.last() == all[i as int]);
        }
        i += 1;
    }
    assert(all.take(i as int) == all);
}

/// Copies a table of fixed pairs into an owned list.
pub fn owned_pairs(table: &[(&'static str, &'static str)]) -> (list: Vec<(String, String)>)
    ensures
        pairs_of(list@) == pairs_of_table(table@),
{
    let mut list: Vec<(String, String)> = Vec::new();
    let mut i: usize = 0;
    while i < table.len()
        invariant
            i <= table.len(),
            pairs_of(list@) == pairs_of_table(table@.take(i as int)),
        decreases table.len() - i,
    {
        let ghost before = list@;
        let entry = table[i];
        list.push((String::from_str(entry.0), String::from_str(entry.1)));
        proof {
            let wanted = pairs_of_table(table@.take(i + 1));
            assert(pairs_of(before).len() == i);
            assert forall|j: int| 0 <= j < wanted.len() implies pairs_of(list@)[j] == wanted[j] by {
                if j < i {
                    assert(pairs_of(before)[j] == pairs_of_table(table@.take(i as int))[j]);
                }
            }
            assert(pairs_of(list@) =~= wanted);
        }
        i += 1;
    }
    assert(table@.take(i as int) == table@);
    list
}

/// Adds a pair to the end of an owned list.
pub fn push_pair(list: &mut Vec<(String, String)>, name: &str, value: &str)
    ensures
        pairs_of(final(list)@) == pairs_of(old(list)@).push((name@, value@)),
{
    list.push((String::from_str(name), String::from_str(value)));
    assert(pairs_of(list@) =~= pairs_of(old(list)@).push((name@, value@)));
}

} // verus!
