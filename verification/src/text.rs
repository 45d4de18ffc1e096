//! Character-level helpers shared by the decoders: comparing and splitting
//! text, locating the tag delimiter, and reading unsigned decimal numbers.

use vstd::prelude::*;
use vstd::std_specs::iter::IteratorSpec;

verus! {

/// The comma-separated fields of `s`, in order. A text without a comma is a
/// single field; every comma closes one field and opens the next, so a text
/// with `k` commas has `k + 1` fields, some of which may be empty.
pub open spec fn fields(s: Seq<char>) -> Seq<Seq<char>>
    decreases s.len(),
{
    if s.len() == 0 {
        seq![Seq::<char>::empty()]
    } else {
        let before = fields(s.drop_last());
        if s.last() == ',' {
            before.push(Seq::<char>::empty())
        } else {
            before.drop_last().push(before.last().push(s.last()))
        }
    }
}

/// Whether the two-character delimiter `>>` starts at position `i` of `s`.
pub open spec fn delimiter_at(s: Seq<char>, i: int) -> bool {
    0 <= i && i + 1 < s.len() && s[i] == '>' && s[i + 1] == '>'
}

/// Whether `i` is the position of the first `>>` in `s`.
pub open spec fn first_delimiter_at(s: Seq<char>, i: int) -> bool {
    delimiter_at(s, i) && forall|j: int| 0 <= j < i ==> !delimiter_at(s, j)
}

/// Whether `s` holds the delimiter `>>` anywhere.
pub open spec fn has_delimiter(s: Seq<char>) -> bool {
    exists|i: int| delimiter_at(s, i)
}

/// The position of the first `>>` in `s` (meaningful when there is one).
pub open spec fn delimiter_position(s: Seq<char>) -> int {
    choose|i: int| first_delimiter_at(s, i)
}

/// The tag of a line: everything before its first `>>`.
pub open spec fn line_tag(s: Seq<char>) -> Seq<char> {
    s.take(delimiter_position(s))
}

/// The payload of a line: everything after its first `>>`, later occurrences
/// of the delimiter included.
pub open spec fn line_payload(s: Seq<char>) -> Seq<char> {
    s.skip(delimiter_position(s) + 2)
}

/// The first occurrence of the delimiter is unique: a position that holds the
/// delimiter with none before it is the delimiter's position.
pub proof fn lemma_first_delimiter_unique(s: Seq<char>, i: int)
    requires
        first_delimiter_at(s, i),
    ensures
        has_delimiter(s),
        delimiter_position(s) == i,
{
    let p = delimiter_position(s);
    assert(first_delimiter_at(s, p));
    if p < i {
        assert(!delimiter_at(s, p));
    } else if i < p {
        assert(!delimiter_at(s, i));
    }
}

/// Whether `c` is one of the ten decimal digits.
pub open spec fn is_digit(c: char) -> bool {
    '0' <= c && c <= '9'
}

/// The number that the decimal digit `c` stands for (0 for any other character).
pub open spec fn digit_value(c: char) -> nat {
    if is_digit(c) {
        (c as u32 - '0' as u32) as nat
    } else {
        0
    }
}

/// Whether every character of `s` is a decimal digit.
pub open spec fn all_digits(s: Seq<char>) -> bool {
    forall|i: int| 0 <= i < s.len() ==> is_digit(#[trigger] s[i])
}

/// The number written by the digits of `s`, most significant first.
pub open spec fn digits_value(s: Seq<char>) -> nat
    decreases s.len(),
{
    if s.len() == 0 {
        0
    } else {
        digits_value(s.drop_last()) * 10 + digit_value(s.last())
    }
}

/// The unsigned 32-bit number that `s` writes, if it writes one: an optional
/// leading `+`, then one or more decimal digits whose value fits in 32 bits.
pub open spec fn uint_value(s: Seq<char>) -> Option<u32> {
    let digits = if s.len() > 0 && s[0] == '+' {
        s.drop_first()
    } else {
        s
    };
    if digits.len() > 0 && all_digits(digits) && digits_value(digits) <= u32::MAX {
        Some(digits_value(digits) as u32)
    } else {
        None
    }
}

/// A longer digit string is worth at least as much as any of its prefixes.
pub proof fn lemma_prefix_value_bounded(s: Seq<char>, k: int)
    requires
        0 <= k <= s.len(),
    ensures
        digits_value(s.take(k)) <= digits_value(s),
    decreases s.len(),
{
    if k == s.len() {
        assert(s.take(k) =~= s);
    } else {
        lemma_prefix_value_bounded(s.drop_last(), k);
        assert(s.drop_last().take(k) =~= s.take(k));
    }
}

/// A text holds exactly one more field than it holds commas, hence at least one.
pub proof fn lemma_fields_nonempty(s: Seq<char>)
    ensures
        fields(s).len() >= 1,
    decreases s.len(),
{
    if s.len() > 0 {
        lemma_fields_nonempty(s.drop_last());
    }
}

/// Whether `s` holds no comma.
pub open spec fn comma_free(s: Seq<char>) -> bool {
    forall|i: int| 0 <= i < s.len() ==> s[i] != ','
}

/// The texts `parts` written one after the other with a comma between each
/// two neighbours.
pub open spec fn joined(parts: Seq<Seq<char>>) -> Seq<char>
    decreases parts.len(),
{
    if parts.len() == 0 {
        Seq::empty()
    } else if parts.len() == 1 {
        parts[0]
    } else {
        joined(parts.drop_last()) + seq![','] + parts.last()
    }
}

/// A text without a comma is its own single field.
pub proof fn lemma_fields_of_comma_free(s: Seq<char>)
    requires
        comma_free(s),
    ensures
        fields(s) == seq![s],
    decreases s.len(),
{
    if s.len() > 0 {
        let shorter = s.drop_last();
        assert(comma_free(shorter));
        lemma_fields_of_comma_free(shorter);
        assert(fields(shorter).drop_last().push(fields(shorter).last().push(s.last())) =~= seq![
            shorter.push(s.last()),
        ]);
        assert(shorter.push(s.last()) =~= s);
    } else {
        assert(s =~= Seq::<char>::empty());
    }
}

/// A comma followed by a text without commas adds that text as one more field.
pub proof fn lemma_fields_of_appended(s: Seq<char>, t: Seq<char>)
    requires
        comma_free(t),
    ensures
        fields(s + seq![','] + t) == fields(s).push(t),
    decreases t.len(),
{
    let whole = s + seq![','] + t;
    lemma_fields_nonempty(s);
    if t.len() == 0 {
        assert(whole.drop_last() =~= s);
        assert(t =~= Seq::<char>::empty());
    } else {
        let shorter = t.drop_last();
        assert(comma_free(shorter));
        lemma_fields_of_appended(s, shorter);
        assert(whole.drop_last() =~= s + seq![','] + shorter);
        assert(whole.last() == t.last());
        assert(shorter.push(t.last()) =~= t);
        assert(fields(s).push(shorter).drop_last() =~= fields(s));
    }
}

/// Splitting undoes joining: texts without commas, joined by commas, are
/// split into the very same texts again.
pub proof fn lemma_fields_of_joined(parts: Seq<Seq<char>>)
    requires
        parts.len() >= 1,
        forall|k: int| 0 <= k < parts.len() ==> comma_free(#[trigger] parts[k]),
    ensures
        fields(joined(parts)) == parts,
    decreases parts.len(),
{
    if parts.len() == 1 {
        lemma_fields_of_comma_free(parts[0]);
        assert(seq![parts[0]] =~= parts);
    } else {
        let shorter = parts.drop_last();
        assert forall|k: int| 0 <= k < shorter.len() implies comma_free(#[trigger] shorter[k]) by {
            assert(shorter[k] == parts[k]);
        }
        lemma_fields_of_joined(shorter);
        lemma_fields_of_appended(joined(shorter), parts.last());
        assert(shorter.push(parts.last()) =~= parts);
    }
}

/// Joining undoes splitting: no field holds a comma, and the fields of a
/// text, joined by commas, are the text again.
pub proof fn lemma_joined_fields(s: Seq<char>)
    ensures
        joined(fields(s)) == s,
        forall|k: int| 0 <= k < fields(s).len() ==> comma_free(#[trigger] fields(s)[k]),
    decreases s.len(),
{
    if s.len() == 0 {
        assert(joined(fields(s)) =~= s);
    } else {
        let before = fields(s.drop_last());
        lemma_joined_fields(s.drop_last());
        lemma_fields_nonempty(s.drop_last());
        if s.last() == ',' {
            let all = before.push(Seq::<char>::empty());
            assert(all.drop_last() =~= before);
            assert(joined(all) =~= s.drop_last().push(','));
            assert(s.drop_last().push(',') =~= s);
        } else {
            let grown = before.last().push(s.last());
            let all = before.drop_last().push(grown);
            assert(comma_free(before.last()));
            assert(comma_free(grown));
            if before.len() == 1 {
                assert(joined(all) =~= joined(before).push(s.last()));
            } else {
                assert(all.drop_last() =~= before.drop_last());
                assert(joined(all) =~= joined(before).push(s.last()));
            }
            assert(s.drop_last().push(s.last()) =~= s);
        }
    }
}

/// A tag without `>`, the delimiter and a payload make a line that splits
/// into that tag and that payload, whatever the payload holds.
pub proof fn lemma_line_splits(tag: Seq<char>, payload: Seq<char>)
    requires
        forall|i: int| 0 <= i < tag.len() ==> tag[i] != '>',
    ensures
        has_delimiter(tag + seq!['>', '>'] + payload),
        line_tag(tag + seq!['>', '>'] + payload) == tag,
        line_payload(tag + seq!['>', '>'] + payload) == payload,
{
    let line = tag + seq!['>', '>'] + payload;
    let at = tag.len() as int;
    assert(delimiter_at(line, at));
    assert(first_delimiter_at(line, at));
    lemma_first_delimiter_unique(line, at);
    assert(line.take(at) =~= tag);
    assert(line.skip(at + 2) =~= payload);
}

/// Collects the characters of `s` into a vector, in one pass over the text.
pub fn chars_of(s: &str) -> (cs: Vec<char>)
    ensures
        cs@ == s@,
{
    broadcast use vstd::string::group_string_axioms;

    let mut rest = s.chars();
    let mut cs: Vec<char> = Vec::new();
    assert(cs@ + rest.remaining() =~= s@);
    loop
        invariant
            cs@ + rest.remaining() == s@,
            rest.obeys_prophetic_iter_laws(),
            rest.decrease() is Some,
        ensures
            cs@ == s@,
        decreases rest.decrease()->0,
    {
        let ghost before = rest.remaining();
        match rest.next() {
            Some(c) => {
                cs.push(c);
                assert(cs@ + rest.remaining() =~= s@) by {
                    assert(before =~= seq![c] + before.drop_first());
                }
            },
            None => {
                assert(cs@ + before =~= cs@);
                break ;
            },
        }
    }
    cs
}

/// Whether the characters `cs` spell out `word`.
pub fn spells(cs: &Vec<char>, word: &str) -> (same: bool)
    ensures
        same == (cs@ == word@),
{
    broadcast use vstd::string::group_string_axioms;

    let mut rest = word.chars();
    let mut i: usize = 0;
    assert(cs@.take(0) + rest.remaining() =~= word@);
    loop
        invariant
            i <= cs@.len(),
            cs@.take(i as int) + rest.remaining() == word@,
            rest.obeys_prophetic_iter_laws(),
            rest.decrease() is Some,
        decreases rest.decrease()->0,
    {
        let ghost before = rest.remaining();
        match rest.next() {
            Some(c) => {
                assert(word@[i as int] == c && word@.len() > i) by {
                    assert((cs@.take(i as int) + before)[i as int] == before[0]);
                }
                if i >= cs.len() || cs[i] != c {
                    return false;
                }
                i += 1;
                assert(cs@.take(i as int) + rest.remaining() =~= word@) by {
                    assert(before =~= seq![c] + before.drop_first());
                    assert(cs@.take(i as int) =~= cs@.take(i - 1).push(c));
                }
            },
            None => {
                assert(cs@.take(i as int) + before =~= cs@.take(i as int));
                if i == cs.len() {
                    assert(cs@.take(i as int) =~= cs@);
                }
                return i == cs.len();
            },
        }
    }
}

/// Splits a line at its first `>>` into tag and payload. A line without the
/// delimiter gives `None`.
pub fn split_line<'a>(raw: &'a str) -> (parts: Option<(&'a str, &'a str)>)
    ensures
        parts is Some <==> has_delimiter(raw@),
        parts matches Some((tag, payload)) ==> tag@ == line_tag(raw@) && payload@ == line_payload(
            raw@,
        ),
{
    let cs = chars_of(raw);
    let n: usize = cs.len();
    if n < 2 {
        assert(!has_delimiter(raw@));
        return None;
    }
    let mut i: usize = 0;
    while i < n - 1
        invariant
            cs@ == raw@,
            n == cs@.len(),
            n >= 2,
            i <= n - 1,
            forall|j: int| 0 <= j < i ==> !delimiter_at(raw@, j),
        decreases n - i,
    {
        if cs[i] == '>' && cs[i + 1] == '>' {
            proof {
                lemma_first_delimiter_unique(raw@, i as int);
            }
            let tag = raw.substring_char(0, i);
            let payload = raw.substring_char(i + 2, n);
            assert(tag@ =~= line_tag(raw@));
            assert(payload@ =~= line_payload(raw@));
            return Some((tag, payload));
        }
        i += 1;
    }
    assert(!has_delimiter(raw@)) by {
        assert forall|j: int| !delimiter_at(raw@, j) by {
            if 0 <= j < i {
                assert(!delimiter_at(raw@, j));
            }
        }
    }
    None
}

/// Splits a payload into exactly `arity` comma-separated fields. A payload
/// with any other number of fields gives `None`.
pub fn split_exact<'a>(data: &'a str, arity: usize) -> (parts: Option<Vec<&'a str>>)
    ensures
        parts is Some <==> fields(data@).len() == arity,
        parts matches Some(v) ==> v@.len() == arity && forall|k: int|
            0 <= k < arity ==> (#[trigger] v@[k])@ == fields(data@)[k],
{
    let cs = chars_of(data);
    let n: usize = cs.len();
    let mut bounds: Vec<(usize, usize)> = Vec::new();
    let mut start: usize = 0;
    let mut i: usize = 0;
    assert(cs@.take(0) =~= Seq::<char>::empty());
    assert(fields(cs@.take(0)) =~= Seq::<Seq<char>>::empty().push(cs@.subrange(0, 0)));
    while i < n
        invariant
            cs@ == data@,
            n == cs@.len(),
            start <= i <= n,
            bounds@.len() <= i,
            fields(cs@.take(i as int)).len() == bounds@.len() + 1,
            fields(cs@.take(i as int)).last() == cs@.subrange(start as int, i as int),
            forall|k: int|
                0 <= k < bounds@.len() ==> (#[trigger] bounds@[k]).0 <= bounds@[k].1 <= n
                    && fields(cs@.take(i as int))[k] == cs@.subrange(
                    bounds@[k].0 as int,
                    bounds@[k].1 as int,
                ),
        decreases n - i,
    {
        let ghost before = fields(cs@.take(i as int));
        assert(cs@.take(i + 1).drop_last() =~= cs@.take(i as int));
        assert(cs@.take(i + 1).last() == cs@[i as int]);
        if cs[i] == ',' {
            bounds.push((start, i));
            start = i + 1;
            assert(fields(cs@.take(i + 1)) == before.push(Seq::<char>::empty()));
            assert(cs@.subrange(start as int, i + 1) =~= Seq::<char>::empty());
        } else {
            assert(fields(cs@.take(i + 1)) == before.drop_last().push(
                before.last().push(cs@[i as int]),
            ));
            assert(cs@.subrange(start as int, i + 1) =~= before.last().push(cs@[i as int]));
        }
        i += 1;
    }
    assert(cs@.take(n as int) =~= cs@);
    bounds.push((start, n));
    if bounds.len() != arity {
        return None;
    }
    let mut parts: Vec<&'a str> = Vec::new();
    let mut k: usize = 0;
    while k < arity
        invariant
            n == data@.len(),
            k <= arity,
            arity == bounds@.len(),
            arity == fields(data@).len(),
            parts@.len() == k,
            forall|j: int|
                0 <= j < arity ==> (#[trigger] bounds@[j]).0 <= bounds@[j].1 <= n && fields(
                    data@,
                )[j] == data@.subrange(bounds@[j].0 as int, bounds@[j].1 as int),
            forall|j: int| 0 <= j < k ==> (#[trigger] parts@[j])@ == fields(data@)[j],
        decreases arity - k,
    {
        let (from, to) = bounds[k];
        let part = data.substring_char(from, to);
        parts.push(part);
        k += 1;
    }
    Some(parts)
}

/// Whether `s` is exactly the text `1`, the only text that stands for `true`.
pub open spec fn is_one(s: Seq<char>) -> bool {
    s.len() == 1 && s[0] == '1'
}

/// Decodes a boolean field: `true` for the text `1`, `false` for anything else.
pub fn truthy(s: &str) -> (flag: bool)
    ensures
        flag == is_one(s@),
{
    let n: usize = s.unicode_len();
    n == 1 && s.get_char(0) == '1'
}

/// Reads an unsigned 32-bit decimal number: an optional `+`, then digits.
/// Anything else, a lone sign, the empty text and a value that does not fit
/// all give `None`.
pub fn parse_u32(s: &str) -> (value: Option<u32>)
    ensures
        value == uint_value(s@),
{
    let cs = chars_of(s);
    let n: usize = cs.len();
    let start: usize = if n > 0 && cs[0] == '+' {
        1
    } else {
        0
    };
    let ghost digits = if s@.len() > 0 && s@[0] == '+' {
        s@.drop_first()
    } else {
        s@
    };
    assert(digits =~= cs@.subrange(start as int, n as int));
    if start == n {
        return None;
    }
    let mut acc: u64 = 0;
    let mut i: usize = start;
    while i < n
        invariant
            start <= i <= n,
            n == cs@.len(),
            digits == cs@.subrange(start as int, n as int),
            digits == if s@.len() > 0 && s@[0] == '+' {
                s@.drop_first()
            } else {
                s@
            },
            all_digits(digits.take(i - start)),
            acc == digits_value(digits.take(i - start)),
            acc <= u32::MAX,
        decreases n - i,
    {
        let c = cs[i];
        assert(c == digits[i - start]);
        if c < '0' || c > '9' {
            assert(!is_digit(digits[i - start]));
            return None;
        }
        let d: u64 = (c as u32 - '0' as u32) as u64;
        let next: u64 = acc * 10 + d;
        proof {
            let longer = digits.take(i + 1 - start);
            assert(longer.drop_last() =~= digits.take(i - start));
            assert(longer.last() == c);
            assert(all_digits(longer)) by {
                assert forall|j: int| 0 <= j < longer.len() implies is_digit(
                    #[trigger] longer[j],
                ) by {
                    if j < i - start {
                        assert(longer[j] == digits.take(i - start)[j]);
                    }
                }
            }
        }
        if next > u32::MAX as u64 {
            proof {
                lemma_prefix_value_bounded(digits, i + 1 - start);
            }
            return None;
        }
        acc = next;
        i += 1;
    }
    assert(digits.take(n - start) =~= digits);
    Some(acc as u32)
}

} // verus!
