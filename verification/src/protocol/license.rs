//! License key parsing.
use vstd::prelude::*;

use crate::error::WheelError;

verus! {

/// `c` has the Unicode `White_Space` property (what `char::is_whitespace` tests).
pub open spec fn is_white_space(c: char) -> bool {
    ||| '\u{9}' <= c <= '\u{d}'
    ||| c == ' '
    ||| c == '\u{85}'
    ||| c == '\u{a0}'
    ||| c == '\u{1680}'
    ||| '\u{2000}' <= c <= '\u{200a}'
    ||| c == '\u{2028}'
    ||| c == '\u{2029}'
    ||| c == '\u{202f}'
    ||| c == '\u{205f}'
    ||| c == '\u{3000}'
}

/// The number of white-space characters at the start of `s`.
pub open spec fn leading_white_space(s: Seq<char>) -> nat
    decreases s.len(),
{
    if s.len() > 0 && is_white_space(s[0]) {
        1 + leading_white_space(s.drop_first())
    } else {
        0
    }
}

/// The number of white-space characters at the end of `s`.
pub open spec fn trailing_white_space(s: Seq<char>) -> nat
    decreases s.len(),
{
    if s.len() > 0 && is_white_space(s.last()) {
        1 + trailing_white_space(s.drop_last())
    } else {
        0
    }
}

/// `s` without its leading and trailing white space (what `str::trim` returns).
pub open spec fn trim(s: Seq<char>) -> Seq<char> {
    if leading_white_space(s) == s.len() {
        Seq::empty()
    } else {
        s.subrange(leading_white_space(s) as int, s.len() - trailing_white_space(s))
    }
}

/// The pieces of `t` between hyphens, in order (what `str::split('-')` yields): one more
/// piece than `t` has hyphens.
pub open spec fn split_on_hyphens(t: Seq<char>) -> Seq<Seq<char>>
    decreases t.len(),
{
    if t.len() == 0 {
        seq![Seq::empty()]
    } else {
        let prev = split_on_hyphens(t.drop_last());
        if t.last() == '-' {
            prev.push(Seq::empty())
        } else {
            prev.update(prev.len() - 1, prev.last().push(t.last()))
        }
    }
}

/// `c` is an ASCII hexadecimal digit, in either case.
pub open spec fn is_hex_digit(c: char) -> bool {
    ||| '0' <= c <= '9'
    ||| 'a' <= c <= 'f'
    ||| 'A' <= c <= 'F'
}

/// The value of the hexadecimal digit `c`.
pub open spec fn hex_digit_value(c: char) -> nat {
    if '0' <= c <= '9' {
        (c as int - '0' as int) as nat
    } else if 'a' <= c <= 'f' {
        (c as int - 'a' as int + 10) as nat
    } else {
        (c as int - 'A' as int + 10) as nat
    }
}

/// The value of the hexadecimal numeral `s`, most significant digit first.
pub open spec fn hex_value(s: Seq<char>) -> nat
    decreases s.len(),
{
    if s.len() == 0 {
        0
    } else {
        hex_value(s.drop_last()) * 16 + hex_digit_value(s.last())
    }
}

/// `c` with an ASCII lowercase letter turned to uppercase.
pub open spec fn ascii_upper(c: char) -> char {
    if 'a' <= c <= 'z' {
        (c as int - 32) as char
    } else {
        c
    }
}

/// `seg` is one segment of a license key: exactly 8 hexadecimal digits.
pub open spec fn is_key_segment(seg: Seq<char>) -> bool {
    seg.len() == 8 && forall|i: int| 0 <= i < 8 ==> is_hex_digit(#[trigger] seg[i])
}

/// The hyphen-separated segments of the license string `license`, once trimmed.
pub open spec fn license_segments(license: Seq<char>) -> Seq<Seq<char>> {
    split_on_hyphens(trim(license))
}

/// `license` is a valid activation key: after trimming, three hyphen-separated segments of
/// 8 hexadecimal digits each.
pub open spec fn is_license_key(license: Seq<char>) -> bool {
    let segs = license_segments(license);
    &&& segs.len() == 3
    &&& is_key_segment(segs[0])
    &&& is_key_segment(segs[1])
    &&& is_key_segment(segs[2])
}

/// The message of a license string that does not split into three segments.
pub open spec fn segment_count_error_text() -> Seq<char> {
    "expected 3 hyphen-separated segments"@
}

/// The message for segment `position` (counted from 1) of a license key, which is not 8
/// hexadecimal digits; it quotes `segment`.
pub uninterp spec fn segment_error_text(position: nat, segment: Seq<char>) -> Seq<char>;

/// The message with which a license string that is not a valid key is refused: the segment
/// count when there are not three segments, else the first segment that is not 8 hex digits.
pub open spec fn license_error_text(license: Seq<char>) -> Seq<char> {
    let segs = license_segments(license);
    if segs.len() != 3 {
        segment_count_error_text()
    } else if !is_key_segment(segs[0]) {
        segment_error_text(1, segs[0])
    } else if !is_key_segment(segs[1]) {
        segment_error_text(2, segs[1])
    } else {
        segment_error_text(3, segs[2])
    }
}

/// The message for a bad license key segment, built with `format!`: the text
/// "segment {position} must be exactly 8 hex characters (got {segment:?})". Its contract
/// names the result, a function of the two arguments, without stating the text.
#[verifier::external_body]
fn segment_error_message(position: usize, segment: &str) -> (r: String)
    ensures
        r@ == segment_error_text(position as nat, segment@),
{
    format!("segment {} must be exactly 8 hex characters (got {:?})", position, segment)
}

/// Whether `c` is white space in the sense of [`is_white_space`].
pub fn char_is_white_space(c: char) -> (r: bool)
    ensures
        r == is_white_space(c),
{
    ('\u{9}' <= c && c <= '\u{d}') || c == ' ' || c == '\u{85}' || c == '\u{a0}' || c == '\u{1680}'
        || ('\u{2000}' <= c && c <= '\u{200a}') || c == '\u{2028}' || c == '\u{2029}' || c
        == '\u{202f}' || c == '\u{205f}' || c == '\u{3000}'
}

/// Whether `c` is an ASCII hexadecimal digit.
pub fn char_is_hex_digit(c: char) -> (r: bool)
    ensures
        r == is_hex_digit(c),
{
    ('0' <= c && c <= '9') || ('a' <= c && c <= 'f') || ('A' <= c && c <= 'F')
}

fn hex_digit(c: char) -> (r: u32)
    requires
        is_hex_digit(c),
    ensures
        r == hex_digit_value(c),
        r < 16,
{
    if '0' <= c && c <= '9' {
        c as u32 - '0' as u32
    } else if 'a' <= c && c <= 'f' {
        c as u32 - 'a' as u32 + 10
    } else {
        c as u32 - 'A' as u32 + 10
    }
}

proof fn lemma_leading_step(s: Seq<char>, a: int)
    requires
        0 <= a < s.len(),
        is_white_space(s[a]),
    ensures
        leading_white_space(s.skip(a)) == 1 + leading_white_space(s.skip(a + 1)),
{
    assert(s.skip(a).drop_first() =~= s.skip(a + 1));
}

proof fn lemma_trailing_step(s: Seq<char>, b: int)
    requires
        0 < b <= s.len(),
        is_white_space(s[b - 1]),
    ensures
        trailing_white_space(s.take(b)) == 1 + trailing_white_space(s.take(b - 1)),
{
    assert(s.take(b).drop_last() =~= s.take(b - 1));
}

/// The trimmed bounds `(a, b)` of `s`: `s[a..b]` is `trim(s)`.
fn trim_bounds(s: &str) -> (r: (usize, usize))
    ensures
        r.0 <= r.1 <= s@.len(),
        s@.subrange(r.0 as int, r.1 as int) == trim(s@),
{
    let n = s.unicode_len();
    let mut a: usize = 0;
    assert(s@.skip(0) =~= s@);
    while a < n && char_is_white_space(s.get_char(a))
        invariant
            a <= n,
            n == s@.len(),
            leading_white_space(s@) == a + leading_white_space(s@.skip(a as int)),
        decreases n - a,
    {
        proof {
            lemma_leading_step(s@, a as int);
        }
        a = a + 1;
    }
    let ghost lead = leading_white_space(s@);
    assert(lead == a) by {
        if a < n {
            assert(!is_white_space(s@.skip(a as int)[0]));
        } else {
            assert(s@.skip(a as int) =~= Seq::<char>::empty());
        }
    }
    let mut b: usize = n;
    assert(s@.take(n as int) =~= s@);
    while b > a && char_is_white_space(s.get_char(b - 1))
        invariant
            a <= b <= n,
            n == s@.len(),
            lead == a,
            a < n ==> !is_white_space(s@[a as int]),
            a < n ==> a < b,
            trailing_white_space(s@) == (n - b) + trailing_white_space(s@.take(b as int)),
        decreases b - a,
    {
        proof {
            lemma_trailing_step(s@, b as int);
        }
        b = b - 1;
    }
    proof {
        if a < n {
            assert(b > a);
            assert(!is_white_space(s@.take(b as int).last()));
            assert(trailing_white_space(s@) == n - b);
        } else {
            assert(s@.subrange(a as int, b as int) =~= Seq::<char>::empty());
        }
    }
    (a, b)
}

proof fn lemma_split_nonempty(t: Seq<char>)
    ensures
        split_on_hyphens(t).len() >= 1,
    decreases t.len(),
{
    if t.len() > 0 {
        lemma_split_nonempty(t.drop_last());
    }
}

/// The bounds of the hyphen-separated segments of `t`, in order.
fn segment_bounds(t: &str) -> (r: Vec<(usize, usize)>)
    ensures
        r@.len() == split_on_hyphens(t@).len(),
        forall|k: int| 0 <= k < r@.len() ==> #[trigger] r@[k].0 <= r@[k].1 <= t@.len(),
        forall|k: int|
            0 <= k < r@.len() ==> #[trigger] split_on_hyphens(t@)[k] == t@.subrange(
                r@[k].0 as int,
                r@[k].1 as int,
            ),
{
    let n = t.unicode_len();
    let mut bounds: Vec<(usize, usize)> = Vec::new();
    let mut start: usize = 0;
    let mut i: usize = 0;
    assert(t@.take(0) =~= Seq::<char>::empty());
    while i < n
        invariant
            i <= n,
            n == t@.len(),
            start <= i,
            split_on_hyphens(t@.take(i as int)).len() == bounds@.len() + 1,
            split_on_hyphens(t@.take(i as int)).last() == t@.subrange(start as int, i as int),
            forall|k: int| 0 <= k < bounds@.len() ==> #[trigger] bounds@[k].0 <= bounds@[k].1 <= i,
            forall|k: int|
                0 <= k < bounds@.len() ==> #[trigger] split_on_hyphens(t@.take(i as int))[k]
                    == t@.subrange(bounds@[k].0 as int, bounds@[k].1 as int),
        decreases n - i,
    {
        let c = t.get_char(i);
        let ghost prev = split_on_hyphens(t@.take(i as int));
        assert(t@.take(i + 1).drop_last() =~= t@.take(i as int));
        assert(t@.take(i + 1).last() == c);
        proof {
            lemma_split_nonempty(t@.take(i as int));
        }
        let ghost old_bounds = bounds@;
        let ghost next = split_on_hyphens(t@.take(i + 1));
        if c == '-' {
            assert(next == prev.push(Seq::<char>::empty()));
            bounds.push((start, i));
            start = i + 1;
            assert(t@.subrange(start as int, (i + 1) as int) =~= Seq::<char>::empty());
            assert forall|k: int| 0 <= k < bounds@.len() implies #[trigger] next[k] == t@.subrange(
                bounds@[k].0 as int,
                bounds@[k].1 as int,
            ) by {
                if k < old_bounds.len() {
                    assert(bounds@[k] == old_bounds[k]);
                    assert(next[k] == prev[k]);
                } else {
                    assert(next[k] == prev.last());
                }
            }
            assert forall|k: int| 0 <= k < bounds@.len() implies #[trigger] bounds@[k].0
                <= bounds@[k].1 <= i + 1 by {
                if k < old_bounds.len() {
                    assert(bounds@[k] == old_bounds[k]);
                }
            }
        } else {
            assert(next == prev.update(prev.len() - 1, prev.last().push(c)));
            assert(t@.subrange(start as int, (i + 1) as int) =~= t@.subrange(start as int, i as int).push(c));
            assert forall|k: int| 0 <= k < bounds@.len() implies #[trigger] next[k] == t@.subrange(
                bounds@[k].0 as int,
                bounds@[k].1 as int,
            ) by {
                assert(next[k] == prev[k]);
            }
        }
        i = i + 1;
    }
    assert(t@.take(n as int) =~= t@);
    let ghost all = split_on_hyphens(t@);
    assert(all == split_on_hyphens(t@.take(n as int)));
    let ghost old_bounds = bounds@;
    bounds.push((start, n));
    assert forall|k: int| 0 <= k < bounds@.len() implies #[trigger] all[k] == t@.subrange(
        bounds@[k].0 as int,
        bounds@[k].1 as int,
    ) by {
        if k < old_bounds.len() {
            assert(bounds@[k] == old_bounds[k]);
        }
    }
    assert forall|k: int| 0 <= k < bounds@.len() implies #[trigger] bounds@[k].0 <= bounds@[k].1
        <= t@.len() by {
        if k < old_bounds.len() {
            assert(bounds@[k] == old_bounds[k]);
        }
    }
    bounds
}

proof fn lemma_hex_value_of_eight(seg: Seq<char>)
    requires
        seg.len() == 8,
    ensures
        hex_value(seg) == ((((((hex_digit_value(seg[0]) * 16 + hex_digit_value(seg[1])) * 16
            + hex_digit_value(seg[2])) * 16 + hex_digit_value(seg[3])) * 16 + hex_digit_value(seg[4]))
            * 16 + hex_digit_value(seg[5])) * 16 + hex_digit_value(seg[6])) * 16 + hex_digit_value(
            seg[7]),
{
    let v = |i: int| hex_digit_value(seg[i]);
    assert(seg.take(1).drop_last() =~= Seq::<char>::empty());
    assert(hex_value(Seq::<char>::empty()) == 0);
    assert(seg.take(1).last() == seg[0]);
    assert(hex_value(seg.take(1)) == v(0));
    assert(seg.take(2).drop_last() =~= seg.take(1));
    assert(hex_value(seg.take(2)) == v(0) * 16 + v(1));
    assert(seg.take(3).drop_last() =~= seg.take(2));
    assert(hex_value(seg.take(3)) == (v(0) * 16 + v(1)) * 16 + v(2));
    assert(seg.take(4).drop_last() =~= seg.take(3));
    assert(hex_value(seg.take(4)) == ((v(0) * 16 + v(1)) * 16 + v(2)) * 16 + v(3));
    assert(seg.take(5).drop_last() =~= seg.take(4));
    assert(hex_value(seg.take(5)) == (((v(0) * 16 + v(1)) * 16 + v(2)) * 16 + v(3)) * 16 + v(4));
    assert(seg.take(6).drop_last() =~= seg.take(5));
    assert(hex_value(seg.take(6)) == ((((v(0) * 16 + v(1)) * 16 + v(2)) * 16 + v(3)) * 16 + v(4))
        * 16 + v(5));
    assert(seg.take(7).drop_last() =~= seg.take(6));
    assert(hex_value(seg.take(7)) == (((((v(0) * 16 + v(1)) * 16 + v(2)) * 16 + v(3)) * 16 + v(4))
        * 16 + v(5)) * 16 + v(6));
    assert(seg.drop_last() =~= seg.take(7));
}

/// The value of the 8 hexadecimal digits `t[at .. at + 8]`.
fn segment_value(t: &str, at: usize) -> (r: u32)
    requires
        at + 8 <= t@.len(),
        at + 8 <= usize::MAX,
        is_key_segment(t@.subrange(at as int, at + 8)),
    ensures
        r == hex_value(t@.subrange(at as int, at + 8)),
{
    let ghost seg = t@.subrange(at as int, at + 8);
    assert(is_hex_digit(seg[0]) && is_hex_digit(seg[1]) && is_hex_digit(seg[2]) && is_hex_digit(seg[3]));
    assert(is_hex_digit(seg[4]) && is_hex_digit(seg[5]) && is_hex_digit(seg[6]) && is_hex_digit(seg[7]));
    let d0 = hex_digit(t.get_char(at));
    let d1 = hex_digit(t.get_char(at + 1));
    let d2 = hex_digit(t.get_char(at + 2));
    let d3 = hex_digit(t.get_char(at + 3));
    let d4 = hex_digit(t.get_char(at + 4));
    let d5 = hex_digit(t.get_char(at + 5));
    let d6 = hex_digit(t.get_char(at + 6));
    let d7 = hex_digit(t.get_char(at + 7));
    proof {
        lemma_hex_value_of_eight(seg);
    }
    ((((((d0 * 16 + d1) * 16 + d2) * 16 + d3) * 16 + d4) * 16 + d5) * 16 + d6) * 16 + d7
}

/// Checks one segment: `Ok` of its value when it is 8 hex digits, else the refusal naming it.
fn check_segment(t: &str, bounds: (usize, usize), position: usize) -> (r: Result<u32, WheelError>)
    requires
        bounds.0 <= bounds.1 <= t@.len(),
    ensures
        match r {
            Ok(v) => is_key_segment(t@.subrange(bounds.0 as int, bounds.1 as int)) && v == hex_value(
                t@.subrange(bounds.0 as int, bounds.1 as int),
            ),
            Err(e) => {
                &&& !is_key_segment(t@.subrange(bounds.0 as int, bounds.1 as int))
                &&& e matches WheelError::InvalidLicense(m) && m@ == segment_error_text(
                    position as nat,
                    t@.subrange(bounds.0 as int, bounds.1 as int),
                )
            },
        },
{
    let (st, en) = bounds;
    let ghost seg = t@.subrange(st as int, en as int);
    let mut ok = en - st == 8;
    if ok {
        let mut i: usize = 0;
        while i < 8
            invariant
                i <= 8,
                en - st == 8,
                en <= t@.len(),
                seg == t@.subrange(st as int, en as int),
                ok == (forall|j: int| 0 <= j < i ==> is_hex_digit(#[trigger] seg[j])),
            decreases 8 - i,
        {
            let c = t.get_char(st + i);
            assert(seg[i as int] == c);
            ok = ok && char_is_hex_digit(c);
            i = i + 1;
        }
    }
    if !ok {
        let chunk = t.substring_char(st, en);
        return Err(WheelError::InvalidLicense(segment_error_message(position, chunk)));
    }
    Ok(segment_value(t, st))
}

/// Parses a firmware activation license key string into three `u32` chunks.
///
/// Expected format: `"XXXXXXXX-XXXXXXXX-XXXXXXXX"` (three 8-character
/// uppercase or lowercase hex segments separated by hyphens), surrounding white space
/// ignored.
///
/// Returns `Err(`[`WheelError::InvalidLicense`]`)` on any format violation.
pub fn parse_license_key(license: &str) -> (r: Result<[u32; 3], WheelError>)
    ensures
        match r {
            Ok(key) => {
                &&& is_license_key(license@)
                &&& key@ == seq![
                    hex_value(license_segments(license@)[0]) as u32,
                    hex_value(license_segments(license@)[1]) as u32,
                    hex_value(license_segments(license@)[2]) as u32,
                ]
            },
            Err(e) => {
                &&& !is_license_key(license@)
                &&& e matches WheelError::InvalidLicense(m) && m@ == license_error_text(license@)
            },
        },
{
    let (a, b) = trim_bounds(license);
    let t = license.substring_char(a, b);
    let bounds = segment_bounds(t);
    let ghost segs = license_segments(license@);
    assert(segs == split_on_hyphens(t@));
    if bounds.len() != 3 {
        let m = String::from_str("expected 3 hyphen-separated segments");
        return Err(WheelError::InvalidLicense(m));
    }
    assert(segs[0] == t@.subrange(bounds@[0].0 as int, bounds@[0].1 as int));
    assert(segs[1] == t@.subrange(bounds@[1].0 as int, bounds@[1].1 as int));
    assert(segs[2] == t@.subrange(bounds@[2].0 as int, bounds@[2].1 as int));
    let k0 = match check_segment(t, bounds[0], 1) {
        Ok(v) => v,
        Err(e) => return Err(e),
    };
    let k1 = match check_segment(t, bounds[1], 2) {
        Ok(v) => v,
        Err(e) => return Err(e),
    };
    let k2 = match check_segment(t, bounds[2], 3) {
        Ok(v) => v,
        Err(e) => return Err(e),
    };
    let key = [k0, k1, k2];
    assert(key@ =~= seq![
        hex_value(segs[0]) as u32,
        hex_value(segs[1]) as u32,
        hex_value(segs[2]) as u32,
    ]);
    Ok(key)
}

proof fn lemma_leading_all(s: Seq<char>)
    ensures
        (leading_white_space(s) == s.len()) <==> (forall|i: int|
            0 <= i < s.len() ==> is_white_space(#[trigger] s[i])),
        leading_white_space(s) <= s.len(),
    decreases s.len(),
{
    if s.len() > 0 {
        lemma_leading_all(s.drop_first());
        if is_white_space(s[0]) {
            assert forall|i: int| 0 <= i < s.len() && (forall|j: int|
                0 <= j < s.drop_first().len() ==> is_white_space(
                    #[trigger] s.drop_first()[j],
                )) implies is_white_space(#[trigger] s[i]) by {
                if i > 0 {
                    assert(s[i] == s.drop_first()[i - 1]);
                }
            }
        }
    }
}

proof fn lemma_trailing_all(s: Seq<char>)
    ensures
        (trailing_white_space(s) == s.len()) <==> (forall|i: int|
            0 <= i < s.len() ==> is_white_space(#[trigger] s[i])),
        trailing_white_space(s) <= s.len(),
    decreases s.len(),
{
    if s.len() > 0 {
        lemma_trailing_all(s.drop_last());
        if is_white_space(s.last()) {
            assert forall|i: int| 0 <= i < s.len() && (forall|j: int|
                0 <= j < s.drop_last().len() ==> is_white_space(
                    #[trigger] s.drop_last()[j],
                )) implies is_white_space(#[trigger] s[i]) by {
                if i < s.len() - 1 {
                    assert(s[i] == s.drop_last()[i]);
                }
            }
        }
    }
}

proof fn lemma_leading_prefix(pre: Seq<char>, x: Seq<char>)
    requires
        forall|i: int| 0 <= i < pre.len() ==> is_white_space(#[trigger] pre[i]),
    ensures
        leading_white_space(pre + x) == pre.len() + leading_white_space(x),
    decreases pre.len(),
{
    if pre.len() == 0 {
        assert(pre + x =~= x);
    } else {
        assert((pre + x)[0] == pre[0]);
        assert((pre + x).drop_first() =~= pre.drop_first() + x);
        assert forall|i: int| 0 <= i < pre.drop_first().len() implies is_white_space(
            #[trigger] pre.drop_first()[i],
        ) by {
            assert(pre.drop_first()[i] == pre[i + 1]);
        }
        lemma_leading_prefix(pre.drop_first(), x);
    }
}

proof fn lemma_trailing_suffix(x: Seq<char>, post: Seq<char>)
    requires
        forall|i: int| 0 <= i < post.len() ==> is_white_space(#[trigger] post[i]),
    ensures
        trailing_white_space(x + post) == post.len() + trailing_white_space(x),
    decreases post.len(),
{
    if post.len() == 0 {
        assert(x + post =~= x);
    } else {
        assert((x + post).last() == post.last());
        assert((x + post).drop_last() =~= x + post.drop_last());
        assert forall|i: int| 0 <= i < post.drop_last().len() implies is_white_space(
            #[trigger] post.drop_last()[i],
        ) by {
            assert(post.drop_last()[i] == post[i]);
        }
        lemma_trailing_suffix(x, post.drop_last());
    }
}

proof fn lemma_leading_extend(s: Seq<char>, y: Seq<char>)
    requires
        leading_white_space(s) < s.len(),
    ensures
        leading_white_space(s + y) == leading_white_space(s),
    decreases s.len(),
{
    assert((s + y)[0] == s[0]);
    if is_white_space(s[0]) {
        assert((s + y).drop_first() =~= s.drop_first() + y);
        lemma_leading_extend(s.drop_first(), y);
    }
}

proof fn lemma_trailing_extend(y: Seq<char>, s: Seq<char>)
    requires
        trailing_white_space(s) < s.len(),
    ensures
        trailing_white_space(y + s) == trailing_white_space(s),
    decreases s.len(),
{
    assert((y + s).last() == s.last());
    if is_white_space(s.last()) {
        assert((y + s).drop_last() =~= y + s.drop_last());
        lemma_trailing_extend(y, s.drop_last());
    }
}

proof fn lemma_leading_stops(s: Seq<char>)
    requires
        leading_white_space(s) < s.len(),
    ensures
        !is_white_space(s[leading_white_space(s) as int]),
    decreases s.len(),
{
    if is_white_space(s[0]) {
        lemma_leading_stops(s.drop_first());
    }
}

proof fn lemma_trailing_bound(s: Seq<char>, k: int)
    requires
        0 <= k < s.len(),
        !is_white_space(s[k]),
    ensures
        trailing_white_space(s) <= s.len() - 1 - k,
    decreases s.len(),
{
    if k < s.len() - 1 && is_white_space(s.last()) {
        lemma_trailing_bound(s.drop_last(), k);
    }
}

/// White space before and after a string does not change what it trims to, so a license
/// key parses the same with or without surrounding white space.
pub proof fn lemma_trim_ignores_surrounding_white_space(
    pre: Seq<char>,
    s: Seq<char>,
    post: Seq<char>,
)
    requires
        forall|i: int| 0 <= i < pre.len() ==> is_white_space(#[trigger] pre[i]),
        forall|i: int| 0 <= i < post.len() ==> is_white_space(#[trigger] post[i]),
    ensures
        trim(pre + s + post) == trim(s),
        license_segments(pre + s + post) == license_segments(s),
{
    let u = pre + s + post;
    assert(u =~= pre + (s + post));
    lemma_leading_prefix(pre, s + post);
    lemma_leading_all(s);
    lemma_trailing_all(s);
    if leading_white_space(s) == s.len() {
        lemma_leading_prefix(s, post);
        lemma_leading_all(post);
        assert(post + Seq::<char>::empty() =~= post);
        lemma_leading_prefix(post, Seq::<char>::empty());
        assert(leading_white_space(Seq::<char>::empty()) == 0);
        assert(leading_white_space(u) == u.len());
    } else {
        lemma_leading_extend(s, post);
        lemma_trailing_suffix(pre + s, post);
        lemma_trailing_extend(pre, s);
        lemma_leading_all(u);
        lemma_leading_stops(s);
        lemma_trailing_bound(s, leading_white_space(s) as int);
        assert(u.subrange(
            leading_white_space(u) as int,
            u.len() - trailing_white_space(u),
        ) =~= s.subrange(leading_white_space(s) as int, s.len() - trailing_white_space(s)));
    }
}

/// Hexadecimal numerals that differ only in the case of their letters have the same value,
/// so lowercase and uppercase license keys parse to the same words.
pub proof fn lemma_hex_value_ignores_case(s: Seq<char>, t: Seq<char>)
    requires
        s.len() == t.len(),
        forall|i: int| 0 <= i < s.len() ==> is_hex_digit(#[trigger] s[i]) && is_hex_digit(t[i]),
        forall|i: int| 0 <= i < s.len() ==> ascii_upper(#[trigger] s[i]) == ascii_upper(t[i]),
    ensures
        hex_value(s) == hex_value(t),
    decreases s.len(),
{
    if s.len() > 0 {
        let n = s.len() - 1;
        assert(ascii_upper(s[n]) == ascii_upper(t[n]));
        assert(is_hex_digit(s[n]) && is_hex_digit(t[n]));
        assert(hex_digit_value(s.last()) == hex_digit_value(t.last()));
        let sl = s.drop_last();
        let tl = t.drop_last();
        assert forall|i: int| 0 <= i < sl.len() implies is_hex_digit(#[trigger] sl[i])
            && is_hex_digit(tl[i]) && ascii_upper(sl[i]) == ascii_upper(tl[i]) by {
            assert(is_hex_digit(s[i]) && is_hex_digit(t[i]));
            assert(ascii_upper(s[i]) == ascii_upper(t[i]));
            assert(sl[i] == s[i]);
            assert(tl[i] == t[i]);
        }
        lemma_hex_value_ignores_case(sl, tl);
    }
}

/// The digits `'0'..='9'` and the letters `'a'..='f'`, `'A'..='F'` are hexadecimal digits
/// with the values 0 to 9 and 10 to 15; no other character is.
pub proof fn lemma_hex_digit_values(c: char)
    ensures
        '0' <= c <= '9' ==> is_hex_digit(c) && hex_digit_value(c) == c as int - '0' as int,
        'a' <= c <= 'f' ==> is_hex_digit(c) && hex_digit_value(c) == c as int - 'a' as int + 10,
        'A' <= c <= 'F' ==> is_hex_digit(c) && hex_digit_value(c) == c as int - 'A' as int + 10,
        !('0' <= c <= '9' || 'a' <= c <= 'f' || 'A' <= c <= 'F') ==> !is_hex_digit(c),
{
}

/// The uppercase hexadecimal digit of `d`, for `0 <= d < 16`.
pub open spec fn nibble_char(d: int) -> char {
    if d < 10 {
        ('0' as int + d) as char
    } else {
        ('A' as int + d - 10) as char
    }
}

/// `k` written as 8 uppercase hexadecimal digits, most significant first.
pub open spec fn hex8(k: u32) -> Seq<char> {
    seq![
        nibble_char(((k >> 28u32) & 0xfu32) as int),
        nibble_char(((k >> 24u32) & 0xfu32) as int),
        nibble_char(((k >> 20u32) & 0xfu32) as int),
        nibble_char(((k >> 16u32) & 0xfu32) as int),
        nibble_char(((k >> 12u32) & 0xfu32) as int),
        nibble_char(((k >> 8u32) & 0xfu32) as int),
        nibble_char(((k >> 4u32) & 0xfu32) as int),
        nibble_char((k & 0xfu32) as int),
    ]
}

/// The license key text of the words `a`, `b`, `c`: their 8-digit forms joined by hyphens.
pub open spec fn key_text(a: u32, b: u32, c: u32) -> Seq<char> {
    hex8(a) + seq!['-'] + hex8(b) + seq!['-'] + hex8(c)
}

proof fn lemma_nibble_char(d: int)
    requires
        0 <= d < 16,
    ensures
        is_hex_digit(nibble_char(d)),
        hex_digit_value(nibble_char(d)) == d,
        nibble_char(d) != '-',
        !is_white_space(nibble_char(d)),
{
    if d < 10 {
        assert(nibble_char(d) as int == '0' as int + d);
    } else {
        assert(nibble_char(d) as int == 'A' as int + d - 10);
    }
}

/// Every 32-bit word written as 8 hexadecimal digits is a key segment, and its value is the
/// word.
pub proof fn lemma_key_segment_round_trip(k: u32)
    ensures
        is_key_segment(hex8(k)),
        hex_value(hex8(k)) == k,
        forall|i: int| 0 <= i < 8 ==> #[trigger] hex8(k)[i] != '-' && !is_white_space(hex8(k)[i]),
{
    let n0 = ((k >> 28u32) & 0xfu32) as int;
    let n1 = ((k >> 24u32) & 0xfu32) as int;
    let n2 = ((k >> 20u32) & 0xfu32) as int;
    let n3 = ((k >> 16u32) & 0xfu32) as int;
    let n4 = ((k >> 12u32) & 0xfu32) as int;
    let n5 = ((k >> 8u32) & 0xfu32) as int;
    let n6 = ((k >> 4u32) & 0xfu32) as int;
    let n7 = (k & 0xfu32) as int;
    assert(((k >> 28u32) & 0xfu32) < 16 && ((k >> 24u32) & 0xfu32) < 16 && ((k >> 20u32) & 0xfu32)
        < 16 && ((k >> 16u32) & 0xfu32) < 16) by (bit_vector);
    assert(((k >> 12u32) & 0xfu32) < 16 && ((k >> 8u32) & 0xfu32) < 16 && ((k >> 4u32) & 0xfu32)
        < 16 && (k & 0xfu32) < 16) by (bit_vector);
    lemma_nibble_char(n0);
    lemma_nibble_char(n1);
    lemma_nibble_char(n2);
    lemma_nibble_char(n3);
    lemma_nibble_char(n4);
    lemma_nibble_char(n5);
    lemma_nibble_char(n6);
    lemma_nibble_char(n7);
    let h = hex8(k);
    assert forall|i: int| 0 <= i < 8 implies is_hex_digit(#[trigger] h[i]) && h[i] != '-'
        && !is_white_space(h[i]) by {
        if i == 0 {
        } else if i == 1 {
        } else if i == 2 {
        } else if i == 3 {
        } else if i == 4 {
        } else if i == 5 {
        } else if i == 6 {
        } else {
        }
    }
    lemma_hex_value_of_eight(h);
    assert(((((((((k >> 28u32) & 0xfu32) * 16 + ((k >> 24u32) & 0xfu32)) * 16 + ((k >> 20u32)
        & 0xfu32)) * 16 + ((k >> 16u32) & 0xfu32)) * 16 + ((k >> 12u32) & 0xfu32)) * 16 + ((k
        >> 8u32) & 0xfu32)) * 16 + ((k >> 4u32) & 0xfu32)) * 16 + (k & 0xfu32) == k)
        by (bit_vector);
}

proof fn lemma_split_append_plain(x: Seq<char>, y: Seq<char>)
    requires
        forall|i: int| 0 <= i < y.len() ==> #[trigger] y[i] != '-',
    ensures
        split_on_hyphens(x + y) == split_on_hyphens(x).update(
            split_on_hyphens(x).len() - 1,
            split_on_hyphens(x).last() + y,
        ),
    decreases y.len(),
{
    lemma_split_nonempty(x);
    let sx = split_on_hyphens(x);
    if y.len() == 0 {
        assert(x + y =~= x);
        assert(sx.last() + y =~= sx.last());
        assert(sx.update(sx.len() - 1, sx.last()) =~= sx);
    } else {
        let y1 = y.drop_last();
        assert forall|i: int| 0 <= i < y1.len() implies #[trigger] y1[i] != '-' by {
            assert(y1[i] == y[i]);
        }
        lemma_split_append_plain(x, y1);
        assert((x + y).drop_last() =~= x + y1);
        assert((x + y).last() == y.last());
        let prev = split_on_hyphens(x + y1);
        assert(prev.len() == sx.len());
        assert(prev.last() == sx.last() + y1);
        assert(sx.last() + y1 + seq![y.last()] =~= sx.last() + y);
        assert(prev.last().push(y.last()) =~= sx.last() + y);
        assert(prev.update(prev.len() - 1, prev.last().push(y.last())) =~= sx.update(
            sx.len() - 1,
            sx.last() + y,
        ));
    }
}

proof fn lemma_split_append_hyphen(x: Seq<char>)
    ensures
        split_on_hyphens(x + seq!['-']) == split_on_hyphens(x).push(Seq::<char>::empty()),
{
    assert((x + seq!['-']).drop_last() =~= x);
    assert((x + seq!['-']).last() == '-');
}

/// A key written as three 8-digit hexadecimal words joined by hyphens is a valid license key
/// whose segments are those words, so it parses to the words themselves; with white space
/// around it, it parses the same (`lemma_trim_ignores_surrounding_white_space`).
pub proof fn lemma_license_key_round_trip(a: u32, b: u32, c: u32)
    ensures
        is_license_key(key_text(a, b, c)),
        license_segments(key_text(a, b, c)) == seq![hex8(a), hex8(b), hex8(c)],
        hex_value(license_segments(key_text(a, b, c))[0]) == a,
        hex_value(license_segments(key_text(a, b, c))[1]) == b,
        hex_value(license_segments(key_text(a, b, c))[2]) == c,
{
    lemma_key_segment_round_trip(a);
    lemma_key_segment_round_trip(b);
    lemma_key_segment_round_trip(c);
    let t = key_text(a, b, c);
    let e = Seq::<char>::empty();
    assert(!is_white_space(t[0]));
    assert(t[0] == hex8(a)[0]);
    assert(t.last() == hex8(c)[7]);
    assert(leading_white_space(t) == 0);
    assert(trailing_white_space(t) == 0);
    assert(trim(t) =~= t);
    assert(split_on_hyphens(e) == seq![e]);
    lemma_split_append_plain(e, hex8(a));
    assert(e + hex8(a) =~= hex8(a));
    assert(split_on_hyphens(hex8(a)) =~= seq![hex8(a)]);
    let p1 = hex8(a) + seq!['-'];
    lemma_split_append_hyphen(hex8(a));
    assert(split_on_hyphens(p1) =~= seq![hex8(a), e]);
    let p2 = p1 + hex8(b);
    lemma_split_append_plain(p1, hex8(b));
    assert(e + hex8(b) =~= hex8(b));
    assert(split_on_hyphens(p2) =~= seq![hex8(a), hex8(b)]);
    let p3 = p2 + seq!['-'];
    lemma_split_append_hyphen(p2);
    assert(split_on_hyphens(p3) =~= seq![hex8(a), hex8(b), e]);
    lemma_split_append_plain(p3, hex8(c));
    assert(e + hex8(c) =~= hex8(c));
    assert(split_on_hyphens(p3 + hex8(c)) =~= seq![hex8(a), hex8(b), hex8(c)]);
    assert(p3 + hex8(c) == t);
}

proof fn lemma_trim_plain(t: Seq<char>)
    requires
        t.len() > 0,
        !is_white_space(t[0]),
        !is_white_space(t.last()),
    ensures
        trim(t) == t,
{
    assert(leading_white_space(t) == 0);
    assert(trailing_white_space(t) == 0);
    assert(t.subrange(0, t.len() as int) =~= t);
}

/// A license string is refused when it has a fourth segment, only two segments, or a first
/// segment one digit short, however its words are chosen.
pub proof fn lemma_license_rejects_malformed(a: u32, b: u32, c: u32, d: u32)
    ensures
        !is_license_key(key_text(a, b, c) + seq!['-'] + hex8(d)),
        !is_license_key(hex8(a) + seq!['-'] + hex8(b)),
        !is_license_key(hex8(a).drop_last() + seq!['-'] + hex8(b) + seq!['-'] + hex8(c)),
{
    lemma_key_segment_round_trip(a);
    lemma_key_segment_round_trip(b);
    lemma_key_segment_round_trip(c);
    lemma_key_segment_round_trip(d);
    let e = Seq::<char>::empty();
    let ha = hex8(a);
    let hb = hex8(b);
    let hc = hex8(c);
    let hd = hex8(d);
    assert(split_on_hyphens(e) == seq![e]);
    lemma_license_key_round_trip(a, b, c);
    let t4 = key_text(a, b, c) + seq!['-'] + hd;
    let k = key_text(a, b, c);
    assert(split_on_hyphens(k) =~= seq![ha, hb, hc]) by {
        lemma_trim_plain(k);
        assert(k[0] == ha[0]);
        assert(k.last() == hc[7]);
    }
    lemma_split_append_hyphen(k);
    lemma_split_append_plain(k + seq!['-'], hd);
    assert(e + hd =~= hd);
    assert(split_on_hyphens(t4) =~= seq![ha, hb, hc, hd]);
    assert(t4[0] == ha[0]);
    assert(t4.last() == hd[7]);
    lemma_trim_plain(t4);
    let t2 = ha + seq!['-'] + hb;
    assert(split_on_hyphens(ha) =~= seq![ha]) by {
        lemma_split_append_plain(e, ha);
        assert(e + ha =~= ha);
    }
    lemma_split_append_hyphen(ha);
    lemma_split_append_plain(ha + seq!['-'], hb);
    assert(e + hb =~= hb);
    assert(split_on_hyphens(t2) =~= seq![ha, hb]);
    assert(t2[0] == ha[0]);
    assert(t2.last() == hb[7]);
    lemma_trim_plain(t2);
    let ha7 = ha.drop_last();
    let t7 = ha7 + seq!['-'] + hb + seq!['-'] + hc;
    assert forall|i: int| 0 <= i < ha7.len() implies #[trigger] ha7[i] != '-' by {
        assert(ha7[i] == ha[i]);
    }
    lemma_split_append_plain(e, ha7);
    assert(e + ha7 =~= ha7);
    assert(split_on_hyphens(ha7) =~= seq![ha7]);
    lemma_split_append_hyphen(ha7);
    let q1 = ha7 + seq!['-'];
    lemma_split_append_plain(q1, hb);
    let q2 = q1 + hb;
    assert(split_on_hyphens(q2) =~= seq![ha7, hb]);
    lemma_split_append_hyphen(q2);
    let q3 = q2 + seq!['-'];
    lemma_split_append_plain(q3, hc);
    assert(e + hc =~= hc);
    assert(split_on_hyphens(q3 + hc) =~= seq![ha7, hb, hc]);
    assert(q3 + hc == t7);
    assert(t7[0] == ha[0]);
    assert(t7.last() == hc[7]);
    lemma_trim_plain(t7);
    assert(!is_key_segment(ha7));
}

} // verus!
