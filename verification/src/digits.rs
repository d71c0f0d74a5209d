use vstd::prelude::*;

verus! {

/// `b` is an ASCII decimal digit.
pub open spec fn is_digit_byte(b: u8) -> bool {
    48 <= b <= 57
}

/// The number that the decimal digits `d` write, most significant first.
pub open spec fn digits_value(d: Seq<u8>) -> nat
    decreases d.len(),
{
    if d.len() == 0 {
        0
    } else {
        digits_value(d.drop_last()) * 10 + (d.last() - 48) as nat
    }
}

/// The text after an optional leading `+`.
pub open spec fn unsigned_digits(s: Seq<u8>) -> Seq<u8> {
    if s.len() > 0 && s[0] == 43 {
        s.drop_first()
    } else {
        s
    }
}

/// What parsing the text `s` as a `u8` gives: an optional `+` followed by at
/// least one ASCII digit, denoting a number no larger than 255.
pub open spec fn parse_u8_spec(s: Seq<u8>) -> Option<u8> {
    let d = unsigned_digits(s);
    if d.len() > 0 && (forall|i: int| 0 <= i < d.len() ==> #[trigger] is_digit_byte(d[i]))
        && digits_value(d) <= 255 {
        Some(digits_value(d) as u8)
    } else {
        None
    }
}

/// Appending a digit never makes the number smaller.
proof fn lemma_digits_grow(d: Seq<u8>, k: int)
    requires
        0 <= k < d.len(),
        is_digit_byte(d[k]),
    ensures
        digits_value(d.take(k + 1)) >= digits_value(d.take(k)),
        digits_value(d.take(k + 1)) == digits_value(d.take(k)) * 10 + (d[k] - 48) as nat,
{
    assert(d.take(k + 1).drop_last() =~= d.take(k));
}

/// Parses `text[start..end]` as a `u8`, as `str::parse::<u8>` does.
pub fn parse_u8(text: &[u8], start: usize, end: usize) -> (r: Option<u8>)
    requires
        start <= end <= text@.len(),
    ensures
        r == parse_u8_spec(text@.subrange(start as int, end as int)),
{
    let ghost s = text@.subrange(start as int, end as int);
    let mut from = start;
    if from < end && text[from] == 43u8 {
        from = from + 1;
    }
    let ghost d = text@.subrange(from as int, end as int);
    assert(d =~= unsigned_digits(s));
    if from == end {
        return None;
    }
    let mut acc: u32 = 0;
    let mut too_big = false;
    let mut i = from;
    while i < end
        invariant
            start <= from <= i <= end <= text@.len(),
            d == text@.subrange(from as int, end as int),
            d == unsigned_digits(text@.subrange(start as int, end as int)),
            forall|j: int| 0 <= j < i - from ==> #[trigger] is_digit_byte(d[j]),
            !too_big ==> acc == digits_value(d.take(i - from)) && acc <= 255,
            too_big ==> digits_value(d.take(i - from)) > 255,
        decreases end - i,
    {
        let b = text[i];
        if b < 48u8 || b > 57u8 {
            assert(!is_digit_byte(d[i - from]));
            return None;
        }
        proof { lemma_digits_grow(d, i - from); }
        if !too_big {
            acc = acc * 10 + (b - 48u8) as u32;
            if acc > 255 {
                too_big = true;
            }
        }
        i = i + 1;
    }
    assert(d.take(end - from) =~= d);
    if too_big {
        None
    } else {
        Some(acc as u8)
    }
}

} // verus!
