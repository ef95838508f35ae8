//! Character-level helpers on strings: whitespace, decimal rendering,
//! suffix checks and the small std calls that vstd leaves unspecified.
use vstd::prelude::*;
use vstd::string::StringSliceAdditionalSpecFns;

verus! {

/// Unicode `White_Space` code points, the set that `char::is_whitespace` tests.
pub open spec fn is_unicode_whitespace(c: char) -> bool {
    let n = c as u32;
    ||| 0x09 <= n <= 0x0d
    ||| n == 0x20
    ||| n == 0x85
    ||| n == 0xa0
    ||| n == 0x1680
    ||| 0x2000 <= n <= 0x200a
    ||| n == 0x2028
    ||| n == 0x2029
    ||| n == 0x202f
    ||| n == 0x205f
    ||| n == 0x3000
}

/// A string is blank when trimming it leaves nothing: every character is whitespace.
pub open spec fn is_blank(s: Seq<char>) -> bool {
    forall|i: int| 0 <= i < s.len() ==> is_unicode_whitespace(#[trigger] s[i])
}

/// Whether `c` has the Unicode `White_Space` property (`char::is_whitespace`).
fn char_is_whitespace(c: char) -> (r: bool)
    ensures
        r == is_unicode_whitespace(c),
{
    let n: u32 = c as u32;
    (0x09 <= n && n <= 0x0d) || n == 0x20 || n == 0x85 || n == 0xa0 || n == 0x1680 || (0x2000
        <= n && n <= 0x200a) || n == 0x2028 || n == 0x2029 || n == 0x202f || n == 0x205f || n
        == 0x3000
}

/// `String::push`: appends one character.
#[verifier::external_body]
pub(crate) fn push_char(s: &mut String, c: char)
    ensures
        final(s)@ == old(s)@.push(c),
{
    s.push(c)
}

/// The characters of `s`, in order.
pub fn chars_of(s: &str) -> (r: Vec<char>)
    ensures
        r@ == s@,
{
    let mut out: Vec<char> = Vec::new();
    for c in it: s.chars()
        invariant
            out@ == it.seq().take(it.index() as int),
            it.seq() == s@,
    {
        out.push(c);
    }
    out
}

/// Whether `s.trim().is_empty()` holds: no character of `s` is outside the whitespace set.
pub fn is_blank_text(s: &str) -> (r: bool)
    ensures
        r == is_blank(s@),
{
    let cs = chars_of(s);
    let mut i: usize = 0;
    while i < cs.len()
        invariant
            cs@ == s@,
            i <= cs.len(),
            forall|j: int| 0 <= j < i ==> is_unicode_whitespace(#[trigger] s@[j]),
        decreases cs.len() - i,
    {
        if !char_is_whitespace(cs[i]) {
            return false;
        }
        i += 1;
    }
    true
}

/// The character of a decimal digit.
pub open spec fn digit_char(d: int) -> char {
    (48 + d) as char
}

/// Decimal digits of a natural number, most significant first, without leading zeros.
pub open spec fn decimal(n: nat) -> Seq<char>
    decreases n,
{
    if n < 10 {
        seq![digit_char(n as int)]
    } else {
        decimal(n / 10).push(digit_char((n % 10) as int))
    }
}

/// Decimal text of an integer, with a leading `-` when it is negative.
pub open spec fn signed_decimal(n: int) -> Seq<char> {
    if n < 0 {
        seq!['-'] + decimal((-n) as nat)
    } else {
        decimal(n as nat)
    }
}

/// The number that a string of decimal digits denotes.
pub open spec fn digits_value(s: Seq<char>) -> int
    decreases s.len(),
{
    if s.len() == 0 {
        0
    } else {
        10 * digits_value(s.drop_last()) + (s[s.len() - 1] as int - 48)
    }
}

/// Decimal text is made of the digits `0`-`9`, denotes the number, and has
/// no leading zero (but for zero itself).
pub proof fn lemma_decimal(n: nat)
    ensures
        forall|i: int| 0 <= i < decimal(n).len() ==> '0' <= #[trigger] decimal(n)[i] <= '9',
        digits_value(decimal(n)) == n,
        decimal(n).len() > 0,
        decimal(n)[0] == '0' ==> n == 0,
    decreases n,
{
    let last = (n % 10) as int;
    assert(digit_char(last) as int == 48 + last);
    if n < 10 {
        assert(decimal(n).drop_last() =~= Seq::<char>::empty());
    }
    if n >= 10 {
        lemma_decimal(n / 10);
        let d = decimal(n);
        assert(d.drop_last() =~= decimal(n / 10));
        assert(d[0] == decimal(n / 10)[0]);
        assert(d[d.len() - 1] == digit_char(last));
        assert(digits_value(d) == 10 * digits_value(decimal(n / 10)) + last);
        assert(10 * (n / 10) + last == n);
    } else {
        let d = decimal(n);
        assert(d[0] == digit_char(last));
        assert(digits_value(d) == 10 * digits_value(d.drop_last()) + last);
    }
}

/// Decimal text is never empty.
pub proof fn lemma_signed_decimal_nonempty(n: int)
    ensures
        signed_decimal(n).len() > 0,
{
    lemma_decimal_nonempty(if n < 0 { -n } else { n });
}

proof fn lemma_decimal_nonempty(n: int)
    requires
        n >= 0,
    ensures
        decimal(n as nat).len() > 0,
{
}

/// Appends the decimal digits of `n`.
pub fn push_decimal(s: &mut String, n: u64)
    ensures
        final(s)@ == old(s)@ + decimal(n as nat),
    decreases n,
{
    if n >= 10 {
        push_decimal(s, n / 10);
    }
    let d: u8 = (n % 10) as u8;
    let c: char = (48u8 + d) as char;
    assert(c == digit_char((n % 10) as int));
    push_char(s, c);
}

/// Appends the decimal text of `n`, with a `-` when it is negative.
pub fn push_signed_decimal(s: &mut String, n: i64)
    ensures
        final(s)@ == old(s)@ + signed_decimal(n as int),
{
    if n < 0 {
        push_char(s, '-');
        let m: u64 = ((-(n + 1)) as u64) + 1;
        push_decimal(s, m);
        assert(old(s)@.push('-') + decimal(m as nat) =~= old(s)@ + (seq!['-'] + decimal(m as nat)));
    } else {
        push_decimal(s, n as u64);
    }
}

/// `s` without the copies of `c` at its end (`trim_end_matches(c)`).
pub open spec fn trim_trailing(s: Seq<char>, c: char) -> Seq<char>
    decreases s.len(),
{
    if s.len() > 0 && s[s.len() - 1] == c {
        trim_trailing(s.drop_last(), c)
    } else {
        s
    }
}

/// A string of the first `n` characters of `cs`.
pub fn string_of_prefix(cs: &Vec<char>, n: usize) -> (r: String)
    requires
        n <= cs@.len(),
    ensures
        r@ == cs@.take(n as int),
{
    let mut out = String::new();
    let mut i: usize = 0;
    while i < n
        invariant
            i <= n <= cs@.len(),
            out@ == cs@.take(i as int),
        decreases n - i,
    {
        push_char(&mut out, cs[i]);
        assert(cs@.take(i + 1) =~= cs@.take(i as int).push(cs@[i as int]));
        i += 1;
    }
    out
}

/// `s.trim_end_matches(c)`.
pub fn trim_end_char(s: &str, c: char) -> (r: String)
    ensures
        r@ == trim_trailing(s@, c),
{
    let cs = chars_of(s);
    let mut end: usize = cs.len();
    assert(cs@.take(end as int) =~= s@);
    while end > 0 && cs[end - 1] == c
        invariant
            end <= cs@.len(),
            cs@ == s@,
            trim_trailing(s@, c) == trim_trailing(cs@.take(end as int), c),
        decreases end,
    {
        assert(cs@.take(end as int).drop_last() =~= cs@.take(end - 1));
        end -= 1;
    }
    string_of_prefix(&cs, end)
}

/// Whether `s` ends with `suffix`.
pub open spec fn has_suffix(s: Seq<char>, suffix: Seq<char>) -> bool {
    s.len() >= suffix.len() && s.subrange(s.len() - suffix.len(), s.len() as int) == suffix
}

/// `s` ends with `suffix` exactly when `s` is some text followed by `suffix`.
pub proof fn lemma_has_suffix(s: Seq<char>, suffix: Seq<char>, prefix: Seq<char>)
    ensures
        has_suffix(s, suffix) ==> s == s.take(s.len() - suffix.len()) + suffix,
        s == prefix + suffix ==> has_suffix(s, suffix),
{
    if has_suffix(s, suffix) {
        assert(s =~= s.take(s.len() - suffix.len()) + suffix);
    }
    if s == prefix + suffix {
        assert(s.subrange(s.len() - suffix.len(), s.len() as int) =~= suffix);
    }
}

/// `s.ends_with(suffix)`.
pub fn ends_with(s: &str, suffix: &str) -> (r: bool)
    ensures
        r == has_suffix(s@, suffix@),
{
    let cs = chars_of(s);
    let ts = chars_of(suffix);
    if ts.len() > cs.len() {
        return false;
    }
    let off: usize = cs.len() - ts.len();
    let mut i: usize = 0;
    while i < ts.len()
        invariant
            cs@ == s@,
            ts@ == suffix@,
            off + ts@.len() == cs@.len(),
            cs@.len() <= usize::MAX,
            i <= ts@.len(),
            forall|j: int| 0 <= j < i ==> cs@[off + j] == ts@[j],
        decreases ts@.len() - i,
    {
        if cs[off + i] != ts[i] {
            assert(s@.subrange(off as int, s@.len() as int)[i as int] != suffix@[i as int]);
            return false;
        }
        i += 1;
    }
    assert(s@.subrange(off as int, s@.len() as int) =~= suffix@);
    true
}

/// The bytes that URL encoding leaves as they are: ASCII letters and digits and `-._~`.
pub open spec fn is_unreserved_byte(b: u8) -> bool {
    ||| 48 <= b <= 57
    ||| 65 <= b <= 90
    ||| 97 <= b <= 122
    ||| b == 45
    ||| b == 46
    ||| b == 95
    ||| b == 126
}

/// An upper-case hexadecimal digit.
pub open spec fn hex_digit_upper(d: int) -> char {
    if d < 10 {
        (48 + d) as char
    } else {
        (55 + d) as char
    }
}

/// Percent-encoding of a byte string: unreserved bytes as they are, every
/// other byte as `%` and two upper-case hexadecimal digits.
pub open spec fn percent_encode(bytes: Seq<u8>) -> Seq<char>
    decreases bytes.len(),
{
    if bytes.len() == 0 {
        Seq::empty()
    } else {
        let b = bytes[0];
        let head = if is_unreserved_byte(b) {
            seq![b as char]
        } else {
            seq!['%', hex_digit_upper(b as int / 16), hex_digit_upper(b as int % 16)]
        };
        head + percent_encode(bytes.drop_first())
    }
}

/// Percent-encoding works byte by byte: the encoding of a concatenation is the
/// concatenation of the encodings, an unreserved byte stands for itself, and
/// any other byte becomes `%` and its two upper-case hexadecimal digits.
pub proof fn lemma_percent_encode(a: Seq<u8>, b: Seq<u8>, x: u8)
    ensures
        percent_encode(a + b) == percent_encode(a) + percent_encode(b),
        is_unreserved_byte(x) ==> percent_encode(seq![x]) == seq![x as char],
        !is_unreserved_byte(x) ==> percent_encode(seq![x]) == seq![
            '%',
            hex_digit_upper(x as int / 16),
            hex_digit_upper(x as int % 16),
        ],
    decreases a.len(),
{
    assert(seq![x].drop_first() =~= Seq::<u8>::empty());
    assert(percent_encode(Seq::<u8>::empty()) == Seq::<char>::empty());
    assert(percent_encode(seq![x]) =~= (if is_unreserved_byte(x) {
        seq![x as char]
    } else {
        seq!['%', hex_digit_upper(x as int / 16), hex_digit_upper(x as int % 16)]
    }) + Seq::<char>::empty());
    if a.len() == 0 {
        assert(a + b =~= b);
        assert(percent_encode(a) + percent_encode(b) =~= percent_encode(b));
    } else {
        lemma_percent_encode(a.drop_first(), b, x);
        assert((a + b).drop_first() =~= a.drop_first() + b);
        assert((a + b)[0] == a[0]);
    }
}

/// A hexadecimal digit is `0`-`9` for values below ten and `A`-`F` (upper
/// case) for ten to fifteen, and denotes its value.
pub proof fn lemma_hex_digit_upper(d: int)
    requires
        0 <= d < 16,
    ensures
        d < 10 ==> '0' <= hex_digit_upper(d) <= '9' && hex_digit_upper(d) as int - 48 == d,
        d >= 10 ==> 'A' <= hex_digit_upper(d) <= 'F' && hex_digit_upper(d) as int - 55 == d,
{
}

/// Trimming a trailing character keeps a prefix of the text, removes only
/// copies of that character, and leaves no copy at the end.
pub proof fn lemma_trim_trailing(s: Seq<char>, c: char)
    ensures
        trim_trailing(s, c).len() <= s.len(),
        trim_trailing(s, c) == s.take(trim_trailing(s, c).len() as int),
        forall|i: int| trim_trailing(s, c).len() <= i < s.len() ==> #[trigger] s[i] == c,
        trim_trailing(s, c).len() > 0 ==> trim_trailing(s, c)[trim_trailing(s, c).len() - 1] != c,
    decreases s.len(),
{
    if s.len() > 0 && s[s.len() - 1] == c {
        lemma_trim_trailing(s.drop_last(), c);
        let t = trim_trailing(s, c);
        assert(s.drop_last().take(t.len() as int) =~= s.take(t.len() as int));
        assert forall|i: int| t.len() <= i < s.len() implies #[trigger] s[i] == c by {
            if i < s.len() - 1 {
                assert(s.drop_last()[i] == s[i]);
            }
        }
    } else {
        assert(s.take(s.len() as int) =~= s);
    }
}

/// `urlencoding::encode`: percent-encodes every byte of the UTF-8 encoding of
/// `s` except ASCII letters, digits and `-`, `_`, `.`, `~`, with upper-case hex digits.
#[verifier::external_body]
pub(crate) fn url_encode(s: &str) -> (r: String)
    ensures
        r@ == percent_encode(s.spec_bytes()),
{
    urlencoding::encode(s).into_owned()
}

/// A byte that an HTTP header value may hold: a tab, or anything from space up except DEL.
pub open spec fn is_header_value_byte(b: u8) -> bool {
    (b >= 32 && b != 127) || b == 9
}

/// Whether every byte of a UTF-8 text may stand in an HTTP header value.
pub open spec fn is_header_value(bytes: Seq<u8>) -> bool {
    forall|i: int| 0 <= i < bytes.len() ==> is_header_value_byte(#[trigger] bytes[i])
}

/// `HeaderValue::from_str(s).is_ok()`: it succeeds exactly when every byte of
/// `s` is a tab or at least a space and not DEL.
#[verifier::external_body]
pub(crate) fn header_value_accepted(s: &str) -> (r: bool)
    ensures
        r == is_header_value(s.spec_bytes()),
{
    reqwest::header::HeaderValue::from_str(s).is_ok()
}

/// The lower-case form that `str::to_lowercase` gives (Unicode case mapping).
pub uninterp spec fn lowercase(s: Seq<char>) -> Seq<char>;

/// `str::to_lowercase`: the Unicode lower-case mapping of `s`.
#[verifier::external_body]
pub(crate) fn to_lowercase(s: &str) -> (r: String)
    ensures
        r@ == lowercase(s@),
{
    s.to_lowercase()
}

/// `s` without the whitespace at its start.
pub open spec fn trim_start(s: Seq<char>) -> Seq<char>
    decreases s.len(),
{
    if s.len() > 0 && is_unicode_whitespace(s[0]) {
        trim_start(s.drop_first())
    } else {
        s
    }
}

/// `s` without the whitespace at its end.
pub open spec fn trim_end(s: Seq<char>) -> Seq<char>
    decreases s.len(),
{
    if s.len() > 0 && is_unicode_whitespace(s[s.len() - 1]) {
        trim_end(s.drop_last())
    } else {
        s
    }
}

/// `s.trim()`: without the whitespace at either end.
pub open spec fn trim(s: Seq<char>) -> Seq<char> {
    trim_end(trim_start(s))
}

/// `s.trim()`, as a new string.
pub fn trim_text(s: &str) -> (r: String)
    ensures
        r@ == trim(s@),
{
    let cs = chars_of(s);
    let mut start: usize = 0;
    assert(cs@.skip(0) =~= s@);
    while start < cs.len() && char_is_whitespace(cs[start])
        invariant
            start <= cs@.len(),
            cs@ == s@,
            trim_start(s@) == trim_start(cs@.skip(start as int)),
        decreases cs@.len() - start,
    {
        assert(cs@.skip(start as int).drop_first() =~= cs@.skip(start + 1));
        start += 1;
    }
    let mut end: usize = cs.len();
    assert(cs@.subrange(start as int, end as int) =~= cs@.skip(start as int));
    while end > start && char_is_whitespace(cs[end - 1])
        invariant
            start <= end <= cs@.len(),
            cs@ == s@,
            trim(s@) == trim_end(cs@.subrange(start as int, end as int)),
        decreases end,
    {
        assert(cs@.subrange(start as int, end as int).drop_last() =~= cs@.subrange(
            start as int,
            end - 1,
        ));
        end -= 1;
    }
    let mut out = String::new();
    let mut i: usize = start;
    while i < end
        invariant
            start <= i <= end <= cs@.len(),
            out@ == cs@.subrange(start as int, i as int),
        decreases end - i,
    {
        push_char(&mut out, cs[i]);
        assert(cs@.subrange(start as int, i + 1) =~= cs@.subrange(start as int, i as int).push(
            cs@[i as int],
        ));
        i += 1;
    }
    out
}

} // verus!
