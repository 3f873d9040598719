use vstd::prelude::*;
use vstd::string::*;

verus! {

/// A non-negative fixed-point price, in hundredths of the currency unit.
#[derive(Clone, Copy, Debug, PartialEq, Eq, Structural)]
pub struct Price {
    pub hundredths: u64,
}

/// Why no price could be read from a product page.
#[derive(Clone, Copy, Debug, PartialEq, Eq, Structural)]
pub enum FetchError {
    /// The page could not be loaded.
    PageLoad,
    /// The page holds no price element.
    PriceMissing,
    /// The price element's text is not a number.
    PriceUnparsable,
}

pub open spec fn is_digit(c: char) -> bool {
    '0' <= c && c <= '9'
}

pub open spec fn digit_value(c: char) -> nat {
    (c as u32 - '0' as u32) as nat
}

/// The number written in decimal by the digits `t` (0 for no digits).
pub open spec fn digits_value(t: Seq<char>) -> nat
    decreases t.len(),
{
    if t.len() == 0 {
        0
    } else {
        digits_value(t.drop_last()) * 10 + digit_value(t.last())
    }
}

pub open spec fn all_digits(t: Seq<char>) -> bool {
    forall|i: int| 0 <= i < t.len() ==> is_digit(#[trigger] t[i])
}

/// The marks that a price text may carry inside the number: the rupee sign
/// and the grouping separator.
pub open spec fn is_price_mark(c: char) -> bool {
    c == '₹' || c == ','
}

/// The characters taken as surrounding white space: those with Unicode's
/// White_Space property.
pub open spec fn is_space(c: char) -> bool {
    ('\u{09}' <= c && c <= '\u{0D}') || c == ' ' || c == '\u{85}' || c == '\u{A0}' || c
        == '\u{1680}' || ('\u{2000}' <= c && c <= '\u{200A}') || c == '\u{2028}' || c == '\u{2029}'
        || c == '\u{202F}' || c == '\u{205F}' || c == '\u{3000}'
}

/// `s` without its currency signs and grouping separators.
pub open spec fn without_marks(s: Seq<char>) -> Seq<char>
    decreases s.len(),
{
    if s.len() == 0 {
        s
    } else if is_price_mark(s.last()) {
        without_marks(s.drop_last())
    } else {
        without_marks(s.drop_last()).push(s.last())
    }
}

/// `s` without the white space at its start.
pub open spec fn trim_start(s: Seq<char>) -> Seq<char>
    decreases s.len(),
{
    if s.len() > 0 && is_space(s[0]) {
        trim_start(s.drop_first())
    } else {
        s
    }
}

/// `s` without the white space at its end.
pub open spec fn trim_end(s: Seq<char>) -> Seq<char>
    decreases s.len(),
{
    if s.len() > 0 && is_space(s.last()) {
        trim_end(s.drop_last())
    } else {
        s
    }
}

pub open spec fn trim(s: Seq<char>) -> Seq<char> {
    trim_end(trim_start(s))
}

/// `s` without a leading `MRP` (maximum retail price) label.
pub open spec fn without_mrp(s: Seq<char>) -> Seq<char> {
    if s.len() >= 3 && s[0] == 'M' && s[1] == 'R' && s[2] == 'P' {
        s.subrange(3, s.len() as int)
    } else {
        s
    }
}

/// What is left of a price text to be read as a number: currency signs and
/// grouping separators are removed, then the surrounding white space, then
/// a leading `MRP` label and the white space after it.
pub open spec fn price_number_text(s: Seq<char>) -> Seq<char> {
    trim(without_mrp(trim(without_marks(s))))
}

/// The value in hundredths written by `t`: one or more digits, optionally
/// followed by a point and one or two digits.
pub open spec fn fixed_point_value(t: Seq<char>) -> Option<nat> {
    let n = t.len();
    if n > 0 && all_digits(t) {
        Some(digits_value(t) * 100)
    } else if n >= 3 && t[n - 2] == '.' && all_digits(t.take(n - 2)) && is_digit(t[n - 1]) {
        Some(digits_value(t.take(n - 2)) * 100 + digit_value(t[n - 1]) * 10)
    } else if n >= 4 && t[n - 3] == '.' && all_digits(t.take(n - 3)) && is_digit(t[n - 2])
        && is_digit(t[n - 1]) {
        Some(digits_value(t.take(n - 3)) * 100 + digit_value(t[n - 2]) * 10 + digit_value(
            t[n - 1],
        ))
    } else {
        None
    }
}

/// The outcome of reading `t` as a whole as a price.
pub open spec fn fixed_point_result(t: Seq<char>) -> Result<Price, FetchError> {
    match fixed_point_value(t) {
        Some(v) => if v <= u64::MAX {
            Ok(Price { hundredths: v as u64 })
        } else {
            Err(FetchError::PriceUnparsable)
        },
        None => Err(FetchError::PriceUnparsable),
    }
}

/// The outcome of reading a price out of the text of a price element: any
/// character left once the marks, the white space around them and the `MRP`
/// label are removed must belong to the number.
pub open spec fn parse_price_result(s: Seq<char>) -> Result<Price, FetchError> {
    fixed_point_result(price_number_text(s))
}

proof fn lemma_digits_prefix(t: Seq<char>, k: int)
    requires
        0 <= k <= t.len(),
    ensures
        digits_value(t.take(k)) <= digits_value(t),
    decreases t.len(),
{
    if k == t.len() {
        assert(t.take(k) =~= t);
    } else {
        assert(t.drop_last().take(k) =~= t.take(k));
        lemma_digits_prefix(t.drop_last(), k);
    }
}

fn without_marks_of(text: &str) -> (r: Vec<char>)
    ensures
        r@ == without_marks(text@),
{
    let n = text.unicode_len();
    let mut out: Vec<char> = Vec::new();
    let mut i: usize = 0;
    while i < n
        invariant
            n == text@.len(),
            i <= n,
            out@ == without_marks(text@.subrange(0, i as int)),
        decreases n - i,
    {
        let c = text.get_char(i);
        let ghost prev = text@.subrange(0, i as int);
        let ghost next = text@.subrange(0, i as int + 1);
        assert(next.drop_last() =~= prev);
        assert(next.last() == c);
        if !(c == '₹' || c == ',') {
            out.push(c);
        }
        i += 1;
    }
    assert(text@.subrange(0, n as int) =~= text@);
    out
}

fn space(c: char) -> (r: bool)
    ensures
        r == is_space(c),
{
    ('\u{09}' <= c && c <= '\u{0D}') || c == ' ' || c == '\u{85}' || c == '\u{A0}' || c
        == '\u{1680}' || ('\u{2000}' <= c && c <= '\u{200A}') || c == '\u{2028}' || c == '\u{2029}'
        || c == '\u{202F}' || c == '\u{205F}' || c == '\u{3000}'
}

/// The characters of `v` from `lo` up to `hi`.
fn copy_range(v: &Vec<char>, lo: usize, hi: usize) -> (r: Vec<char>)
    requires
        lo <= hi <= v@.len(),
    ensures
        r@ == v@.subrange(lo as int, hi as int),
{
    let mut out: Vec<char> = Vec::new();
    let mut i: usize = lo;
    while i < hi
        invariant
            lo <= i <= hi <= v@.len(),
            out@ == v@.subrange(lo as int, i as int),
        decreases hi - i,
    {
        out.push(v[i]);
        assert(out@ =~= v@.subrange(lo as int, i as int + 1));
        i += 1;
    }
    out
}

fn trimmed(v: &Vec<char>) -> (r: Vec<char>)
    ensures
        r@ == trim(v@),
{
    let n = v.len();
    let mut lo: usize = 0;
    assert(v@.subrange(0, n as int) =~= v@);
    while lo < n && space(v[lo])
        invariant
            n == v@.len(),
            lo <= n,
            trim_start(v@) == trim_start(v@.subrange(lo as int, n as int)),
        decreases n - lo,
    {
        assert(v@.subrange(lo as int, n as int).drop_first() =~= v@.subrange(lo as int + 1, n as int));
        lo += 1;
    }
    let ghost front = v@.subrange(lo as int, n as int);
    assert(trim_start(front) == front);
    assert(front.subrange(0, (n - lo) as int) =~= front);
    let mut hi: usize = n;
    while hi > lo && space(v[hi - 1])
        invariant
            n == v@.len(),
            lo <= hi <= n,
            front == v@.subrange(lo as int, n as int),
            trim_end(front) == trim_end(front.subrange(0, (hi - lo) as int)),
        decreases hi,
    {
        assert(front.subrange(0, (hi - lo) as int).drop_last() =~= front.subrange(0, (hi - lo - 1) as int));
        hi -= 1;
    }
    assert(front.subrange(0, (hi - lo) as int) =~= v@.subrange(lo as int, hi as int));
    copy_range(v, lo, hi)
}

fn without_mrp_of(v: &Vec<char>) -> (r: Vec<char>)
    ensures
        r@ == without_mrp(v@),
{
    if v.len() >= 3 && v[0] == 'M' && v[1] == 'R' && v[2] == 'P' {
        copy_range(v, 3, v.len())
    } else {
        assert(v@.subrange(0, v@.len() as int) =~= v@);
        copy_range(v, 0, v.len())
    }
}

/// The number of digits at the start of `t`.
fn leading_digits(t: &Vec<char>) -> (k: usize)
    ensures
        k <= t@.len(),
        all_digits(t@.take(k as int)),
        k < t@.len() ==> !is_digit(t@[k as int]),
{
    let mut k: usize = 0;
    while k < t.len() && '0' <= t[k] && t[k] <= '9'
        invariant
            k <= t@.len(),
            all_digits(t@.take(k as int)),
        decreases t@.len() - k,
    {
        k += 1;
    }
    k
}

/// The number written by the first `len` characters of `t`, if it fits in a `u64`.
fn digits_number(t: &Vec<char>, len: usize) -> (r: Option<u64>)
    requires
        len <= t@.len(),
        all_digits(t@.take(len as int)),
    ensures
        match r {
            Some(v) => v == digits_value(t@.take(len as int)),
            None => digits_value(t@.take(len as int)) > u64::MAX,
        },
{
    let ghost s = t@.take(len as int);
    let mut acc: u64 = 0;
    let mut i: usize = 0;
    while i < len
        invariant
            len <= t@.len(),
            s == t@.take(len as int),
            all_digits(s),
            i <= len,
            acc == digits_value(s.take(i as int)),
        decreases len - i,
    {
        assert(is_digit(s[i as int]));
        let d = (t[i] as u32 - '0' as u32) as u64;
        assert(s.take(i as int + 1).drop_last() =~= s.take(i as int));
        assert(d <= 9);
        if acc > (u64::MAX - d) / 10 {
            assert(acc * 10 + d > u64::MAX) by (nonlinear_arith)
                requires
                    acc > (u64::MAX - d) / 10,
                    d <= 9,
            ;
            proof {
                lemma_digits_prefix(s, i as int + 1);
            }
            return None;
        }
        assert(acc * 10 + d <= u64::MAX) by (nonlinear_arith)
            requires
                acc <= (u64::MAX - d) / 10,
                d <= 9,
        ;
        acc = acc * 10 + d;
        i += 1;
    }
    assert(s.take(len as int) =~= s);
    Some(acc)
}

/// Reads a price out of the text of a price element. Currency signs and
/// grouping separators are removed, then the surrounding white space, then a
/// leading `MRP` label and the white space after it; what is left must be
/// one or more digits, optionally followed by a point and one or two digits.
/// Any other character left over (a second price, a discount note) makes the
/// text unreadable.
pub fn parse_price(text: &str) -> (r: Result<Price, FetchError>)
    ensures
        r == parse_price_result(text@),
{
    let marks_gone = without_marks_of(text);
    let inner = trimmed(&marks_gone);
    let label_gone = without_mrp_of(&inner);
    let t = trimmed(&label_gone);
    parse_fixed_point(&t)
}

/// Reads all of `t` as a price: one or more digits, optionally followed by a
/// point and one or two digits.
fn parse_fixed_point(t: &Vec<char>) -> (r: Result<Price, FetchError>)
    ensures
        r == fixed_point_result(t@),
{
    let ghost ts = t@;
    let n = t.len();
    let k = leading_digits(&t);
    assert(forall|m: int| 0 <= m <= k ==> all_digits(#[trigger] ts.take(m))) by {
        assert forall|m: int| 0 <= m <= k implies all_digits(#[trigger] ts.take(m)) by {
            assert forall|i: int| 0 <= i < m implies is_digit(#[trigger] ts.take(m)[i]) by {
                assert(ts.take(m)[i] == ts.take(k as int)[i]);
            }
        }
    }
    assert(forall|m: int| k < m <= n ==> !all_digits(#[trigger] ts.take(m))) by {
        assert forall|m: int| k < m <= n implies !all_digits(#[trigger] ts.take(m)) by {
            assert(ts.take(m)[k as int] == ts[k as int]);
        }
    }
    assert(ts.take(n as int) =~= ts);
    if n > 0 && k == n {
        match digits_number(&t, n) {
            Some(d) => {
                if d <= u64::MAX / 100 {
                    Ok(Price { hundredths: d * 100 })
                } else {
                    Err(FetchError::PriceUnparsable)
                }
            },
            None => Err(FetchError::PriceUnparsable),
        }
    } else if n >= 3 && k == n - 2 && t[n - 2] == '.' && '0' <= t[n - 1] && t[n - 1] <= '9' {
        let f = (t[n - 1] as u32 - '0' as u32) as u64;
        match digits_number(&t, n - 2) {
            Some(d) => {
                if d <= (u64::MAX - f * 10) / 100 {
                    assert(d * 100 + f * 10 <= u64::MAX) by (nonlinear_arith)
                        requires
                            d <= (u64::MAX - f * 10) / 100,
                            f <= 9,
                    ;
                    Ok(Price { hundredths: d * 100 + f * 10 })
                } else {
                    assert(d * 100 + f * 10 > u64::MAX) by (nonlinear_arith)
                        requires
                            d > (u64::MAX - f * 10) / 100,
                            f <= 9,
                    ;
                    Err(FetchError::PriceUnparsable)
                }
            },
            None => Err(FetchError::PriceUnparsable),
        }
    } else if n >= 4 && k == n - 3 && t[n - 3] == '.' && '0' <= t[n - 2] && t[n - 2] <= '9'
        && '0' <= t[n - 1] && t[n - 1] <= '9' {
        let f = (t[n - 2] as u32 - '0' as u32) as u64 * 10 + (t[n - 1] as u32 - '0' as u32) as u64;
        match digits_number(&t, n - 3) {
            Some(d) => {
                if d <= (u64::MAX - f) / 100 {
                    assert(d * 100 + f <= u64::MAX) by (nonlinear_arith)
                        requires
                            d <= (u64::MAX - f) / 100,
                            f <= 99,
                    ;
                    Ok(Price { hundredths: d * 100 + f })
                } else {
                    assert(d * 100 + f > u64::MAX) by (nonlinear_arith)
                        requires
                            d > (u64::MAX - f) / 100,
                            f <= 99,
                    ;
                    Err(FetchError::PriceUnparsable)
                }
            },
            None => Err(FetchError::PriceUnparsable),
        }
    } else {
        Err(FetchError::PriceUnparsable)
    }
}

} // verus!
