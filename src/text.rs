//! Character-level helpers: whitespace trimming, character removal,
//! placeholder substitution, decimal formatting and parsing.
use vstd::prelude::*;
use vstd::std_specs::iter::IteratorSpec;

verus! {

/// The characters that `char::is_ascii_whitespace` accepts.
pub open spec fn is_ws(c: char) -> bool {
    c == ' ' || c == '\t' || c == '\n' || c == '\r' || c == '\x0C'
}

/// The characters that `char::is_whitespace` accepts: Unicode White_Space.
pub open spec fn is_unicode_ws(c: char) -> bool {
    let n = c as u32;
    (9 <= n && n <= 13) || n == 32 || n == 0x85 || n == 0xA0 || n == 0x1680 || (0x2000 <= n && n
        <= 0x200A) || n == 0x2028 || n == 0x2029 || n == 0x202F || n == 0x205F || n == 0x3000
}

/// Whitespace: Unicode White_Space where `unicode` holds, else ASCII.
pub open spec fn is_space(c: char, unicode: bool) -> bool {
    if unicode {
        is_unicode_ws(c)
    } else {
        is_ws(c)
    }
}

/// `s` without its leading whitespace of the given kind.
pub open spec fn trim_start_by(s: Seq<char>, unicode: bool) -> Seq<char>
    decreases s.len(),
{
    if s.len() > 0 && is_space(s[0], unicode) {
        trim_start_by(s.drop_first(), unicode)
    } else {
        s
    }
}

/// `s` without its trailing whitespace of the given kind.
pub open spec fn trim_end_by(s: Seq<char>, unicode: bool) -> Seq<char>
    decreases s.len(),
{
    if s.len() > 0 && is_space(s.last(), unicode) {
        trim_end_by(s.drop_last(), unicode)
    } else {
        s
    }
}

/// `s` without its leading ASCII whitespace.
pub open spec fn trim_start(s: Seq<char>) -> Seq<char> {
    trim_start_by(s, false)
}

/// `s` without its trailing ASCII whitespace.
pub open spec fn trim_end(s: Seq<char>) -> Seq<char> {
    trim_end_by(s, false)
}

/// `s` without leading and trailing ASCII whitespace.
pub open spec fn trim(s: Seq<char>) -> Seq<char> {
    trim_end(trim_start(s))
}

/// `s` without its trailing Unicode whitespace, as `str::trim_end` gives.
pub open spec fn unicode_trim_end(s: Seq<char>) -> Seq<char> {
    trim_end_by(s, true)
}

/// `s` without leading and trailing Unicode whitespace, as `str::trim`
/// gives.
pub open spec fn unicode_trim(s: Seq<char>) -> Seq<char> {
    trim_end_by(trim_start_by(s, true), true)
}

/// Every character of `s` is Unicode whitespace (the empty text included),
/// so that `str::trim` leaves nothing.
pub open spec fn is_unicode_blank(s: Seq<char>) -> bool {
    forall|i: int| 0 <= i < s.len() ==> is_unicode_ws(#[trigger] s[i])
}

/// Every character of `s` is whitespace (the empty text included).
pub open spec fn is_blank(s: Seq<char>) -> bool {
    forall|i: int| 0 <= i < s.len() ==> is_ws(#[trigger] s[i])
}

/// The shell metacharacters removed from user-supplied option strings.
pub open spec fn is_shell_meta(c: char) -> bool {
    c == '$' || c == '&' || c == ';' || c == '<' || c == '>' || c == '|' || c == '`'
}

/// `s` with every shell metacharacter removed.
pub open spec fn sanitized(s: Seq<char>) -> Seq<char>
    decreases s.len(),
{
    if s.len() == 0 {
        s
    } else if is_shell_meta(s.last()) {
        sanitized(s.drop_last())
    } else {
        sanitized(s.drop_last()).push(s.last())
    }
}

/// `s` with each occurrence of the placeholder `%s`, read from left to
/// right without overlap, replaced by `r`.
pub open spec fn substituted(s: Seq<char>, r: Seq<char>) -> Seq<char>
    decreases s.len(),
{
    if s.len() < 2 {
        s
    } else if s[0] == '%' && s[1] == 's' {
        r + substituted(s.subrange(2, s.len() as int), r)
    } else {
        seq![s[0]] + substituted(s.drop_first(), r)
    }
}

/// The decimal digit character of `d`.
pub open spec fn digit_char(d: nat) -> char {
    if d == 0 {
        '0'
    } else if d == 1 {
        '1'
    } else if d == 2 {
        '2'
    } else if d == 3 {
        '3'
    } else if d == 4 {
        '4'
    } else if d == 5 {
        '5'
    } else if d == 6 {
        '6'
    } else if d == 7 {
        '7'
    } else if d == 8 {
        '8'
    } else {
        '9'
    }
}

/// The decimal notation of `n`, without leading zeros.
pub open spec fn decimal(n: nat) -> Seq<char>
    decreases n,
{
    if n < 10 {
        seq![digit_char(n)]
    } else {
        decimal(n / 10).push(digit_char(n % 10))
    }
}

/// The decimal notation of a signed integer: a `-` before negative ones.
pub open spec fn signed_decimal(n: int) -> Seq<char> {
    if n < 0 {
        seq!['-'] + decimal((-n) as nat)
    } else {
        decimal(n as nat)
    }
}

pub open spec fn is_digit(c: char) -> bool {
    '0' <= c && c <= '9'
}

pub open spec fn all_digits(s: Seq<char>) -> bool {
    forall|i: int| 0 <= i < s.len() ==> is_digit(#[trigger] s[i])
}

/// The value of a string of decimal digits (0 for the empty string).
pub open spec fn digits_value(s: Seq<char>) -> nat
    decreases s.len(),
{
    if s.len() == 0 {
        0
    } else {
        digits_value(s.drop_last()) * 10 + ((s.last() as u32 - '0' as u32) as nat)
    }
}

/// What `str::parse::<i32>` gives: an optional sign, then one digit or
/// more, and a value in range.
pub open spec fn parsed_i32(s: Seq<char>) -> Option<i32> {
    let neg = s.len() > 0 && s[0] == '-';
    let signed = s.len() > 0 && (s[0] == '-' || s[0] == '+');
    let body = if signed { s.drop_first() } else { s };
    if body.len() == 0 || !all_digits(body) {
        None
    } else if neg && digits_value(body) <= 2147483648 {
        Some((-digits_value(body)) as i32)
    } else if !neg && digits_value(body) <= 2147483647 {
        Some(digits_value(body) as i32)
    } else {
        None
    }
}

/// The characters of `s`, in order.
pub(crate) fn chars_of(s: &str) -> (r: Vec<char>)
    ensures
        r@ == s@,
{
    broadcast use vstd::string::group_string_axioms;

    let mut it = s.chars();
    let mut v: Vec<char> = Vec::new();
    loop
        invariant
            it.obeys_prophetic_iter_laws(),
            v@ + it.remaining() == s@,
        decreases s@.len() - v@.len(),
    {
        match it.next() {
            Some(c) => {
                assert(v@.push(c) + it.remaining() =~= v@ + seq![c] + it.remaining());
                v.push(c);
            },
            None => {
                assert(v@ =~= s@);
                return v;
            },
        }
    }
}

/// Relies on `String`'s `FromIterator<&char>`: the string whose characters
/// are those of `v`, in order.
#[verifier::external_body]
pub(crate) fn string_of(v: &Vec<char>) -> (r: String)
    ensures
        r@ == v@,
{
    v.iter().collect()
}

/// Whether `a` and `b` hold the same characters.
pub(crate) fn same_chars(a: &Vec<char>, b: &Vec<char>) -> (r: bool)
    ensures
        r == (a@ == b@),
{
    if a.len() != b.len() {
        return false;
    }
    let mut i: usize = 0;
    while i < a.len()
        invariant
            a@.len() == b@.len(),
            i <= a@.len(),
            a@.subrange(0, i as int) == b@.subrange(0, i as int),
        decreases a@.len() - i,
    {
        if a[i] != b[i] {
            assert(a@[i as int] != b@[i as int]);
            return false;
        }
        assert(a@.subrange(0, i + 1) =~= a@.subrange(0, i as int).push(a@[i as int]));
        assert(b@.subrange(0, i + 1) =~= b@.subrange(0, i as int).push(b@[i as int]));
        i = i + 1;
    }
    assert(a@ =~= a@.subrange(0, i as int));
    assert(b@ =~= b@.subrange(0, i as int));
    true
}

/// Whether `a` and `b` hold the same characters.
pub fn same_text(a: &str, b: &str) -> (r: bool)
    ensures
        r == (a@ == b@),
{
    same_chars(&chars_of(a), &chars_of(b))
}

/// Whether `c` is ASCII whitespace.
pub fn is_whitespace(c: char) -> (r: bool)
    ensures
        r == is_ws(c),
{
    c == ' ' || c == '\t' || c == '\n' || c == '\r' || c == '\x0C'
}

/// Whether `c` is Unicode whitespace.
pub fn is_unicode_whitespace(c: char) -> (r: bool)
    ensures
        r == is_unicode_ws(c),
{
    let n = c as u32;
    (9 <= n && n <= 13) || n == 32 || n == 0x85 || n == 0xA0 || n == 0x1680 || (0x2000 <= n && n
        <= 0x200A) || n == 0x2028 || n == 0x2029 || n == 0x202F || n == 0x205F || n == 0x3000
}

fn is_space_char(c: char, unicode: bool) -> (r: bool)
    ensures
        r == is_space(c, unicode),
{
    if unicode {
        is_unicode_whitespace(c)
    } else {
        is_whitespace(c)
    }
}

proof fn lemma_trim_start_from(s: Seq<char>, i: int, unicode: bool)
    requires
        0 <= i < s.len(),
        is_space(s[i], unicode),
    ensures
        trim_start_by(s.subrange(i, s.len() as int), unicode) == trim_start_by(
            s.subrange(i + 1, s.len() as int),
            unicode,
        ),
{
    assert(s.subrange(i, s.len() as int).drop_first() =~= s.subrange(i + 1, s.len() as int));
}

proof fn lemma_trim_end_to(s: Seq<char>, j: int, unicode: bool)
    requires
        0 < j <= s.len(),
        is_space(s[j - 1], unicode),
    ensures
        trim_end_by(s.subrange(0, j), unicode) == trim_end_by(s.subrange(0, j - 1), unicode),
{
    assert(s.subrange(0, j).drop_last() =~= s.subrange(0, j - 1));
}

/// The characters of `v` from `lo` up to `hi`.
pub(crate) fn slice_chars(v: &Vec<char>, lo: usize, hi: usize) -> (r: Vec<char>)
    requires
        lo <= hi <= v@.len(),
    ensures
        r@ == v@.subrange(lo as int, hi as int),
{
    let mut r: Vec<char> = Vec::new();
    let mut k: usize = lo;
    while k < hi
        invariant
            lo <= k <= hi <= v@.len(),
            r@ == v@.subrange(lo as int, k as int),
        decreases hi - k,
    {
        r.push(v[k]);
        k = k + 1;
        assert(r@ =~= v@.subrange(lo as int, k as int));
    }
    r
}

/// `v` without leading and trailing whitespace of the given kind.
pub(crate) fn trim_chars_by(v: &Vec<char>, unicode: bool) -> (r: Vec<char>)
    ensures
        r@ == trim_end_by(trim_start_by(v@, unicode), unicode),
{
    let n = v.len();
    let mut i: usize = 0;
    assert(v@.subrange(0, n as int) =~= v@);
    while i < n && is_space_char(v[i], unicode)
        invariant
            i <= n == v@.len(),
            trim_start_by(v@, unicode) == trim_start_by(v@.subrange(i as int, n as int), unicode),
        decreases n - i,
    {
        proof {
            lemma_trim_start_from(v@, i as int, unicode);
        }
        i = i + 1;
    }
    let ghost rest = v@.subrange(i as int, n as int);
    assert(trim_start_by(rest, unicode) == rest) by {
        if rest.len() > 0 {
            assert(rest[0] == v@[i as int]);
        }
    }
    let mut j: usize = n;
    assert(rest.subrange(0, (j - i) as int) =~= rest);
    while j > i && is_space_char(v[j - 1], unicode)
        invariant
            i <= j <= n == v@.len(),
            rest == v@.subrange(i as int, n as int),
            trim_end_by(rest, unicode) == trim_end_by(rest.subrange(0, (j - i) as int), unicode),
        decreases j,
    {
        proof {
            lemma_trim_end_to(rest, (j - i) as int, unicode);
        }
        j = j - 1;
    }
    let r = slice_chars(v, i, j);
    assert(r@ =~= rest.subrange(0, (j - i) as int));
    assert(trim_end_by(r@, unicode) == r@) by {
        if r@.len() > 0 {
            assert(r@.last() == v@[j - 1]);
        }
    }
    r
}

/// `v` without leading and trailing ASCII whitespace.
pub(crate) fn trim_chars(v: &Vec<char>) -> (r: Vec<char>)
    ensures
        r@ == trim(v@),
{
    trim_chars_by(v, false)
}

/// `v` without leading and trailing Unicode whitespace.
pub(crate) fn unicode_trim_chars(v: &Vec<char>) -> (r: Vec<char>)
    ensures
        r@ == unicode_trim(v@),
{
    trim_chars_by(v, true)
}

/// Whether every character of `v` is Unicode whitespace.
pub(crate) fn chars_blank(v: &Vec<char>) -> (r: bool)
    ensures
        r == is_unicode_blank(v@),
{
    let mut i: usize = 0;
    while i < v.len()
        invariant
            i <= v@.len(),
            forall|k: int| 0 <= k < i ==> is_unicode_ws(#[trigger] v@[k]),
        decreases v@.len() - i,
    {
        if !is_unicode_whitespace(v[i]) {
            return false;
        }
        i = i + 1;
    }
    true
}

/// Whether `c` is one of the removed shell metacharacters.
pub fn is_meta_char(c: char) -> (r: bool)
    ensures
        r == is_shell_meta(c),
{
    c == '$' || c == '&' || c == ';' || c == '<' || c == '>' || c == '|' || c == '`'
}

/// Removes every occurrence of `$ & ; < > |` and the backquote from `s`.
pub fn sanitize(s: &str) -> (r: String)
    ensures
        r@ == sanitized(s@),
{
    let v = chars_of(s);
    let mut out: Vec<char> = Vec::new();
    let mut i: usize = 0;
    assert(v@.subrange(0, 0) =~= Seq::<char>::empty());
    while i < v.len()
        invariant
            i <= v@.len(),
            out@ == sanitized(v@.subrange(0, i as int)),
        decreases v@.len() - i,
    {
        let c = v[i];
        assert(v@.subrange(0, i as int + 1).drop_last() =~= v@.subrange(0, i as int));
        if !is_meta_char(c) {
            out.push(c);
        }
        i = i + 1;
    }
    assert(v@.subrange(0, v@.len() as int) =~= v@);
    string_of(&out)
}

/// Replaces each `%s` of `template`, from left to right, by `value`.
pub fn substitute(template: &str, value: &str) -> (r: String)
    ensures
        r@ == substituted(template@, value@),
{
    let t = chars_of(template);
    let val = chars_of(value);
    let n = t.len();
    let mut out: Vec<char> = Vec::new();
    let mut i: usize = 0;
    assert(t@.subrange(0, n as int) =~= t@);
    while i < n
        invariant
            i <= n == t@.len(),
            val@ == value@,
            out@ + substituted(t@.subrange(i as int, n as int), val@) == substituted(t@, val@),
        decreases n - i,
    {
        let ghost rest = t@.subrange(i as int, n as int);
        if i + 1 < n && t[i] == '%' && t[i + 1] == 's' {
            assert(rest.subrange(2, rest.len() as int) =~= t@.subrange(i + 2, n as int));
            let mut k: usize = 0;
            let ghost before = out@;
            while k < val.len()
                invariant
                    k <= val@.len(),
                    out@ == before + val@.subrange(0, k as int),
                decreases val@.len() - k,
            {
                out.push(val[k]);
                k = k + 1;
                assert(out@ =~= before + val@.subrange(0, k as int));
            }
            assert(val@.subrange(0, val@.len() as int) =~= val@);
            assert(out@ + substituted(t@.subrange(i + 2, n as int), val@) =~= before + (val@
                + substituted(rest.subrange(2, rest.len() as int), val@)));
            i = i + 2;
        } else {
            let ghost before = out@;
            out.push(t[i]);
            proof {
                if rest.len() >= 2 {
                    assert(rest.drop_first() =~= t@.subrange(i + 1, n as int));
                    assert(out@ + substituted(t@.subrange(i + 1, n as int), val@) =~= before + (
                    seq![rest[0]] + substituted(rest.drop_first(), val@)));
                } else {
                    assert(t@.subrange(i + 1, n as int) =~= Seq::<char>::empty());
                    assert(out@ + substituted(t@.subrange(i + 1, n as int), val@) =~= before
                        + rest);
                }
            }
            i = i + 1;
        }
    }
    assert(t@.subrange(n as int, n as int) =~= Seq::<char>::empty());
    assert(out@ =~= out@ + substituted(t@.subrange(n as int, n as int), val@));
    string_of(&out)
}

/// The digit character for `d < 10`.
pub fn digit_of(d: u64) -> (c: char)
    requires
        d < 10,
    ensures
        c == digit_char(d as nat),
{
    if d == 0 {
        '0'
    } else if d == 1 {
        '1'
    } else if d == 2 {
        '2'
    } else if d == 3 {
        '3'
    } else if d == 4 {
        '4'
    } else if d == 5 {
        '5'
    } else if d == 6 {
        '6'
    } else if d == 7 {
        '7'
    } else if d == 8 {
        '8'
    } else {
        '9'
    }
}

/// Appends the decimal notation of `n` to `out`.
pub(crate) fn push_decimal(out: &mut Vec<char>, n: u64)
    ensures
        final(out)@ == old(out)@ + decimal(n as nat),
    decreases n,
{
    if n >= 10 {
        push_decimal(out, n / 10);
    }
    out.push(digit_of(n % 10));
    assert(final(out)@ =~= old(out)@ + decimal(n as nat));
}

/// The decimal notation of `n`.
pub fn format_u64(n: u64) -> (r: String)
    ensures
        r@ == decimal(n as nat),
{
    let mut out: Vec<char> = Vec::new();
    push_decimal(&mut out, n);
    assert(out@ =~= decimal(n as nat));
    string_of(&out)
}

/// The decimal notation of `n`, with a `-` before a negative value.
pub fn format_i32(n: i32) -> (r: String)
    ensures
        r@ == signed_decimal(n as int),
{
    let mut out: Vec<char> = Vec::new();
    if n < 0 {
        out.push('-');
        let m: u64 = (0 - (n as i64)) as u64;
        push_decimal(&mut out, m);
    } else {
        push_decimal(&mut out, n as u64);
    }
    assert(out@ =~= signed_decimal(n as int));
    string_of(&out)
}

proof fn lemma_digits_value_grows(s: Seq<char>, i: int, j: int)
    requires
        0 <= i <= j <= s.len(),
    ensures
        digits_value(s.subrange(0, i)) <= digits_value(s.subrange(0, j)),
    decreases j - i,
{
    if i < j {
        lemma_digits_value_grows(s, i, j - 1);
        assert(s.subrange(0, j).drop_last() =~= s.subrange(0, j - 1));
    }
}

/// The value of the digits `v[lo..]`, or `None` where one of them is not a
/// digit, there are none, or the value exceeds `bound`.
pub(crate) fn parse_digits(v: &Vec<char>, lo: usize, bound: u64) -> (r: Option<u64>)
    requires
        lo <= v@.len(),
        bound >= 9,
    ensures
        ({
            let body = v@.subrange(lo as int, v@.len() as int);
            r == (if body.len() == 0 || !all_digits(body) || digits_value(body) > bound {
                None::<u64>
            } else {
                Some(digits_value(body) as u64)
            })
        }),
{
    let n = v.len();
    let ghost body = v@.subrange(lo as int, n as int);
    if lo == n {
        return None;
    }
    let mut k: usize = lo;
    while k < n
        invariant
            lo <= k <= n == v@.len(),
            body == v@.subrange(lo as int, n as int),
            all_digits(body.subrange(0, k - lo)),
        decreases n - k,
    {
        if !('0' <= v[k] && v[k] <= '9') {
            assert(!is_digit(body[k - lo]));
            return None;
        }
        k = k + 1;
        assert(all_digits(body.subrange(0, k - lo))) by {
            assert forall|t: int| 0 <= t < k - lo implies is_digit(#[trigger] body.subrange(0, k - lo)[t]) by {
                if t < k - lo - 1 {
                    assert(body.subrange(0, k - lo)[t] == body.subrange(0, k - lo - 1)[t]);
                }
            }
        }
    }
    assert(body.subrange(0, n - lo) =~= body);
    let mut acc: u64 = 0;
    let mut k: usize = lo;
    assert(body.subrange(0, 0) =~= Seq::<char>::empty());
    while k < n
        invariant
            lo <= k <= n == v@.len(),
            body == v@.subrange(lo as int, n as int),
            all_digits(body),
            acc as nat == digits_value(body.subrange(0, k - lo)),
            acc <= bound,
            bound >= 9,
        decreases n - k,
    {
        assert(body[k - lo] == v@[k as int]);
        assert(is_digit(body[k - lo]));
        let d: u64 = (v[k] as u32 - '0' as u32) as u64;
        assert(d <= 9);
        assert(body.subrange(0, k - lo + 1).drop_last() =~= body.subrange(0, k - lo));
        if acc > (bound - d) / 10 {
            proof {
                assert(acc * 10 + d > bound) by (nonlinear_arith)
                    requires acc > (bound - d) / 10, d <= bound;
                lemma_digits_value_grows(body, k - lo + 1, n - lo);
                assert(body.subrange(0, n - lo) =~= body);
            }
            return None;
        }
        assert(acc * 10 + d <= bound) by (nonlinear_arith)
            requires acc <= (bound - d) / 10, d <= bound;
        acc = acc * 10 + d;
        k = k + 1;
    }
    Some(acc)
}

/// What `str::parse::<i32>` gives on `s`, as an `Option`.
pub fn parse_i32(s: &str) -> (r: Option<i32>)
    ensures
        r == parsed_i32(s@),
{
    let v = chars_of(s);
    if v.len() == 0 {
        return None;
    }
    let neg = v[0] == '-';
    let signed = v[0] == '-' || v[0] == '+';
    let lo: usize = if signed { 1 } else { 0 };
    assert(v@.subrange(lo as int, v@.len() as int) =~= (if signed { v@.drop_first() } else { v@ }));
    if neg {
        match parse_digits(&v, lo, 2147483648) {
            Some(m) => Some((0 - (m as i64)) as i32),
            None => None,
        }
    } else {
        match parse_digits(&v, lo, 2147483647) {
            Some(m) => Some(m as i32),
            None => None,
        }
    }
}

/// What `str::parse::<u64>` gives on unsigned digit strings, as an `Option`;
/// a sign is refused.
pub fn parse_u64(s: &str) -> (r: Option<u64>)
    ensures
        r == (if s@.len() == 0 || !all_digits(s@) || digits_value(s@) > u64::MAX {
            None::<u64>
        } else {
            Some(digits_value(s@) as u64)
        }),
{
    let v = chars_of(s);
    assert(v@.subrange(0, v@.len() as int) =~= v@);
    parse_digits(&v, 0, u64::MAX)
}

/// The index of the first `.` of `s`, or `s.len()` where there is none.
pub open spec fn dot_index(s: Seq<char>) -> nat
    decreases s.len(),
{
    if s.len() == 0 || s[0] == '.' {
        0
    } else {
        1 + dot_index(s.drop_first())
    }
}

/// The first three fraction digits as thousandths, padded with zeros.
pub open spec fn thousandths(f: Seq<char>) -> nat {
    digits_value((f + seq!['0', '0', '0']).subrange(0, 3))
}

/// A figure in seconds (`digits`, or `digits.digits`) in milliseconds;
/// fraction digits past the third are dropped. `None` where the text has
/// another form or the value does not fit in a `u64`.
pub open spec fn millis_of(s: Seq<char>) -> Option<u64> {
    let i = dot_index(s) as int;
    let whole = s.subrange(0, i);
    let frac = if i < s.len() { s.subrange(i + 1, s.len() as int) } else { Seq::<char>::empty() };
    if whole.len() == 0 || !all_digits(whole) || (i < s.len() && (frac.len() == 0 || !all_digits(frac))) {
        None
    } else if digits_value(whole) * 1000 + thousandths(frac) > u64::MAX {
        None
    } else {
        Some((digits_value(whole) * 1000 + thousandths(frac)) as u64)
    }
}

/// Whether every character of `v` is a decimal digit.
pub(crate) fn chars_all_digits(v: &Vec<char>) -> (r: bool)
    ensures
        r == all_digits(v@),
{
    let mut k: usize = 0;
    while k < v.len()
        invariant
            k <= v@.len(),
            forall|t: int| 0 <= t < k ==> is_digit(#[trigger] v@[t]),
        decreases v@.len() - k,
    {
        if !('0' <= v[k] && v[k] <= '9') {
            assert(!is_digit(v@[k as int]));
            return false;
        }
        k = k + 1;
    }
    true
}

fn digit_value(c: char) -> (r: u64)
    requires
        is_digit(c),
    ensures
        r == (c as u32 - '0' as u32),
        r <= 9,
{
    (c as u32 - '0' as u32) as u64
}

/// A figure in seconds, in milliseconds, as `millis_of` says.
pub fn parse_millis(s: &str) -> (r: Option<u64>)
    ensures
        r == millis_of(s@),
{
    let v = chars_of(s);
    let n = v.len();
    let mut i: usize = 0;
    assert(v@.subrange(0, n as int) =~= v@);
    while i < n && v[i] != '.'
        invariant
            i <= n == v@.len(),
            v@ == s@,
            dot_index(v@) == i + dot_index(v@.subrange(i as int, n as int)),
        decreases n - i,
    {
        assert(v@.subrange(i as int, n as int).drop_first() =~= v@.subrange(i + 1, n as int));
        i = i + 1;
    }
    if i < n {
        assert(v@.subrange(i as int, n as int)[0] == '.');
    }
    let whole = slice_chars(&v, 0, i);
    let frac = if i < n { slice_chars(&v, i + 1, n) } else { Vec::new() };
    assert(whole@.subrange(0, whole@.len() as int) =~= whole@);
    let w = match parse_digits(&whole, 0, 18446744073709551) {
        Some(w) => w,
        None => {
            proof {
                if whole@.len() > 0 && all_digits(whole@) {
                    assert(digits_value(whole@) * 1000 > u64::MAX);
                }
            }
            return None;
        },
    };
    if i < n && (frac.len() == 0 || !chars_all_digits(&frac)) {
        return None;
    }
    assert(all_digits(frac@));
    let ghost padded = (frac@ + seq!['0', '0', '0']).subrange(0, 3);
    let d0 = if frac.len() > 0 { digit_value(frac[0]) } else { 0 };
    let d1 = if frac.len() > 1 { digit_value(frac[1]) } else { 0 };
    let d2 = if frac.len() > 2 { digit_value(frac[2]) } else { 0 };
    assert(padded.subrange(0, 1).drop_last() =~= Seq::<char>::empty());
    assert(padded.subrange(0, 2).drop_last() =~= padded.subrange(0, 1));
    assert(padded.subrange(0, 3).drop_last() =~= padded.subrange(0, 2));
    assert(padded.subrange(0, 3) =~= padded);
    assert(padded[0] == (if frac@.len() > 0 { frac@[0] } else { '0' }));
    assert(padded[1] == (if frac@.len() > 1 { frac@[1] } else { '0' }));
    assert(padded[2] == (if frac@.len() > 2 { frac@[2] } else { '0' }));
    assert(padded.subrange(0, 1).last() == padded[0]);
    assert(padded.subrange(0, 2).last() == padded[1]);
    assert(padded.last() == padded[2]);
    assert(digits_value(Seq::<char>::empty()) == 0);
    assert(digits_value(padded.subrange(0, 1)) == d0);
    assert(digits_value(padded.subrange(0, 2)) == d0 * 10 + d1);
    assert(digits_value(padded) == (d0 * 10 + d1) * 10 + d2);
    assert(thousandths(frac@) == d0 * 100 + d1 * 10 + d2);
    let f = d0 * 100 + d1 * 10 + d2;
    if w * 1000 > u64::MAX - f {
        return None;
    }
    Some(w * 1000 + f)
}

/// `s` without leading and trailing Unicode whitespace, as `str::trim`.
pub fn trim_text(s: &str) -> (r: String)
    ensures
        r@ == unicode_trim(s@),
{
    let v = chars_of(s);
    let t = unicode_trim_chars(&v);
    string_of(&t)
}

/// `s` without trailing Unicode whitespace, as `str::trim_end`.
pub fn trim_end_text(s: &str) -> (r: String)
    ensures
        r@ == unicode_trim_end(s@),
{
    let v = chars_of(s);
    let n = v.len();
    let mut j: usize = n;
    assert(v@.subrange(0, n as int) =~= v@);
    while j > 0 && is_unicode_whitespace(v[j - 1])
        invariant
            j <= n == v@.len(),
            trim_end_by(v@, true) == trim_end_by(v@.subrange(0, j as int), true),
        decreases j,
    {
        proof {
            lemma_trim_end_to(v@, j as int, true);
        }
        j = j - 1;
    }
    let r = slice_chars(&v, 0, j);
    assert(trim_end_by(r@, true) == r@) by {
        if r@.len() > 0 {
            assert(r@.last() == v@[j - 1]);
        }
    }
    string_of(&r)
}

} // verus!
