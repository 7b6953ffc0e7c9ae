//! Character-level text helpers shared by the conversation model, the stream
//! decoder and the persistence layout: white space, trimming, prefixes,
//! joining and decimal rendering.
use vstd::prelude::*;

verus! {

/// Whether `c` has the Unicode `White_Space` property (PropList.txt): the
/// controls U+0009 to U+000D, space, U+0085, no-break space, the Ogham space
/// mark, the spaces U+2000 to U+200A, the line and paragraph separators,
/// the narrow no-break space, the medium mathematical space and the
/// ideographic space.
pub open spec fn unicode_white_space(c: char) -> bool {
    let code = c as u32;
    ||| 0x9 <= code <= 0xd
    ||| code == 0x20
    ||| code == 0x85
    ||| code == 0xa0
    ||| code == 0x1680
    ||| 0x2000 <= code <= 0x200a
    ||| code == 0x2028
    ||| code == 0x2029
    ||| code == 0x202f
    ||| code == 0x205f
    ||| code == 0x3000
}

/// Whether `c` is white space (as `char::is_whitespace` decides it: the
/// Unicode `White_Space` property).
fn is_white_space(c: char) -> (result: bool)
    ensures
        result == unicode_white_space(c),
{
    let code = c as u32;
    (0x9 <= code && code <= 0xd) || code == 0x20 || code == 0x85 || code == 0xa0 || code == 0x1680
        || (0x2000 <= code && code <= 0x200a) || code == 0x2028 || code == 0x2029 || code == 0x202f
        || code == 0x205f || code == 0x3000
}

/// Every character of `s` is white space (the empty text included).
pub open spec fn is_blank(s: Seq<char>) -> bool {
    forall|i: int| 0 <= i < s.len() ==> unicode_white_space(#[trigger] s[i])
}

/// The number of white-space characters at the start of `s`.
pub open spec fn leading_white_space(s: Seq<char>) -> nat
    decreases s.len(),
{
    if s.len() == 0 {
        0
    } else if unicode_white_space(s[0]) {
        1 + leading_white_space(s.drop_first())
    } else {
        0
    }
}

/// The number of white-space characters at the end of `s`.
pub open spec fn trailing_white_space(s: Seq<char>) -> nat
    decreases s.len(),
{
    if s.len() == 0 {
        0
    } else if unicode_white_space(s.last()) {
        1 + trailing_white_space(s.drop_last())
    } else {
        0
    }
}

/// `s` without its leading white space.
pub open spec fn trim_start_spec(s: Seq<char>) -> Seq<char> {
    s.skip(leading_white_space(s) as int)
}

/// `s` without its trailing white space.
pub open spec fn trim_end_spec(s: Seq<char>) -> Seq<char> {
    s.take(s.len() - trailing_white_space(s))
}

/// `s` without leading and trailing white space.
pub open spec fn trim_spec(s: Seq<char>) -> Seq<char> {
    trim_end_spec(trim_start_spec(s))
}

/// `s` without any trailing carriage returns and line feeds.
pub open spec fn trim_line_end_spec(s: Seq<char>) -> Seq<char>
    decreases s.len(),
{
    if s.len() > 0 && (s.last() == '\r' || s.last() == '\n') {
        trim_line_end_spec(s.drop_last())
    } else {
        s
    }
}

/// `prefix` stands at the start of `s`.
pub open spec fn has_prefix(s: Seq<char>, prefix: Seq<char>) -> bool {
    prefix.len() <= s.len() && s.take(prefix.len() as int) == prefix
}

/// The texts of `parts` with `separator` between each two of them.
pub open spec fn join_spec(parts: Seq<Seq<char>>, separator: Seq<char>) -> Seq<char>
    decreases parts.len(),
{
    if parts.len() == 0 {
        Seq::empty()
    } else if parts.len() == 1 {
        parts[0]
    } else {
        join_spec(parts.drop_last(), separator) + separator + parts.last()
    }
}

/// The decimal digit character for `digit` (which is below ten).
pub open spec fn digit_char(digit: nat) -> char {
    if digit == 0 {
        '0'
    } else if digit == 1 {
        '1'
    } else if digit == 2 {
        '2'
    } else if digit == 3 {
        '3'
    } else if digit == 4 {
        '4'
    } else if digit == 5 {
        '5'
    } else if digit == 6 {
        '6'
    } else if digit == 7 {
        '7'
    } else if digit == 8 {
        '8'
    } else {
        '9'
    }
}

/// The last `width` decimal digits of `value`, most significant first
/// (zero-padded on the left).
pub open spec fn decimal_digits(value: nat, width: nat) -> Seq<char>
    decreases width,
{
    if width == 0 {
        Seq::empty()
    } else {
        decimal_digits(value / 10, (width - 1) as nat).push(digit_char(value % 10))
    }
}

/// The number of decimal digits of `value` written without leading zeros
/// (one for zero).
pub open spec fn decimal_width(value: nat) -> nat
    decreases value,
{
    if value < 10 {
        1
    } else {
        1 + decimal_width(value / 10)
    }
}

/// `value` written in decimal without leading zeros.
pub open spec fn decimal_spec(value: nat) -> Seq<char> {
    decimal_digits(value, decimal_width(value))
}

proof fn lemma_leading_bound(s: Seq<char>)
    ensures
        leading_white_space(s) <= s.len(),
        leading_white_space(s) < s.len() ==> !unicode_white_space(s[leading_white_space(s) as int]),
    decreases s.len(),
{
    if s.len() > 0 {
        lemma_leading_bound(s.drop_first());
    }
}

proof fn lemma_trailing_bound(s: Seq<char>)
    ensures
        trailing_white_space(s) <= s.len(),
        trailing_white_space(s) < s.len() ==> !unicode_white_space(
            s[s.len() - trailing_white_space(s) - 1],
        ),
    decreases s.len(),
{
    if s.len() > 0 {
        lemma_trailing_bound(s.drop_last());
    }
}

/// Trimming is idempotent: trimmed text has no surrounding white space
/// left to remove.
pub proof fn lemma_trim_idempotent(s: Seq<char>)
    ensures
        trim_spec(trim_spec(s)) == trim_spec(s),
{
    let t = trim_start_spec(s);
    let u = trim_spec(s);
    lemma_leading_bound(s);
    lemma_trailing_bound(t);
    if u.len() > 0 {
        assert(u[0] == t[0]);
        assert(t[0] == s[leading_white_space(s) as int]);
        assert(leading_white_space(u) == 0);
        assert(trim_start_spec(u) =~= u);
        assert(u.last() == t[t.len() - trailing_white_space(t) - 1]);
        assert(trailing_white_space(u) == 0);
        assert(trim_end_spec(u) =~= u);
    } else {
        assert(trim_spec(u) =~= u);
    }
}

/// Whether every character of `s` is white space, as `s.trim().is_empty()`
/// decides it.
pub fn is_blank_text(s: &str) -> (result: bool)
    ensures
        result == is_blank(s@),
{
    let n = s.unicode_len();
    let mut i: usize = 0;
    while i < n
        invariant
            n == s@.len(),
            i <= n,
            forall|j: int| 0 <= j < i ==> unicode_white_space(#[trigger] s@[j]),
        decreases n - i,
    {
        if !is_white_space(s.get_char(i)) {
            return false;
        }
        i = i + 1;
    }
    true
}

/// `s` without its leading white space (`str::trim_start`).
pub fn trim_start(s: &str) -> (result: &str)
    ensures
        result@ == trim_start_spec(s@),
{
    let n = s.unicode_len();
    let mut i: usize = 0;
    assert(s@.skip(0) =~= s@);
    while i < n && is_white_space(s.get_char(i))
        invariant
            n == s@.len(),
            i <= n,
            leading_white_space(s@) == i + leading_white_space(s@.skip(i as int)),
        decreases n - i,
    {
        assert(s@.skip(i as int).drop_first() =~= s@.skip(i + 1));
        i = i + 1;
    }
    s.substring_char(i, n)
}

/// `s` without its trailing white space (`str::trim_end`).
pub fn trim_end(s: &str) -> (result: &str)
    ensures
        result@ == trim_end_spec(s@),
{
    let n = s.unicode_len();
    let mut j: usize = n;
    assert(s@.take(n as int) =~= s@);
    while j > 0 && is_white_space(s.get_char(j - 1))
        invariant
            n == s@.len(),
            j <= n,
            trailing_white_space(s@) == (n - j) + trailing_white_space(s@.take(j as int)),
        decreases j,
    {
        assert(s@.take(j as int).drop_last() =~= s@.take(j - 1));
        j = j - 1;
    }
    assert(s@.take(j as int) =~= s@.subrange(0, j as int));
    s.substring_char(0, j)
}

/// `s` without leading and trailing white space (`str::trim`).
pub fn trim(s: &str) -> (result: &str)
    ensures
        result@ == trim_spec(s@),
{
    trim_end(trim_start(s))
}

/// `s` without trailing carriage returns and line feeds
/// (`str::trim_end_matches(['\r', '\n'])`).
pub fn trim_line_end(s: &str) -> (result: &str)
    ensures
        result@ == trim_line_end_spec(s@),
{
    let n = s.unicode_len();
    let mut j: usize = n;
    assert(s@.take(n as int) =~= s@);
    while j > 0 && (s.get_char(j - 1) == '\r' || s.get_char(j - 1) == '\n')
        invariant
            n == s@.len(),
            j <= n,
            trim_line_end_spec(s@) == trim_line_end_spec(s@.take(j as int)),
        decreases j,
    {
        assert(s@.take(j as int).drop_last() =~= s@.take(j - 1));
        j = j - 1;
    }
    assert(s@.take(j as int) =~= s@.subrange(0, j as int));
    s.substring_char(0, j)
}

/// Whether `a` and `b` hold the same characters.
pub fn same_text(a: &str, b: &str) -> (result: bool)
    ensures
        result == (a@ == b@),
{
    let n = a.unicode_len();
    if n != b.unicode_len() {
        return false;
    }
    let mut i: usize = 0;
    while i < n
        invariant
            n == a@.len(),
            n == b@.len(),
            i <= n,
            forall|j: int| 0 <= j < i ==> a@[j] == b@[j],
        decreases n - i,
    {
        if a.get_char(i) != b.get_char(i) {
            return false;
        }
        i = i + 1;
    }
    assert(a@ =~= b@);
    true
}

/// The rest of `s` after `prefix`, if `s` starts with it (`str::strip_prefix`).
pub fn strip_prefix<'a>(s: &'a str, prefix: &str) -> (result: Option<&'a str>)
    ensures
        has_prefix(s@, prefix@) ==> (result matches Some(rest) && rest@ == s@.skip(prefix@.len() as int)),
        !has_prefix(s@, prefix@) ==> result is None,
{
    let n = s.unicode_len();
    let m = prefix.unicode_len();
    if m > n {
        return None;
    }
    let mut i: usize = 0;
    while i < m
        invariant
            n == s@.len(),
            m == prefix@.len(),
            m <= n,
            i <= m,
            forall|j: int| 0 <= j < i ==> s@[j] == prefix@[j],
        decreases m - i,
    {
        if s.get_char(i) != prefix.get_char(i) {
            assert(s@.take(m as int)[i as int] != prefix@[i as int]);
            return None;
        }
        i = i + 1;
    }
    assert(s@.take(m as int) =~= prefix@);
    assert(s@.skip(m as int) =~= s@.subrange(m as int, n as int));
    Some(s.substring_char(m, n))
}

/// The texts of `parts` joined with `separator` (`[String]::join`).
pub fn join(parts: &Vec<String>, separator: &str) -> (result: String)
    ensures
        result@ == join_spec(parts@.map_values(|p: String| p@), separator@),
{
    let ghost views = parts@.map_values(|p: String| p@);
    let mut result = String::new();
    let mut i: usize = 0;
    while i < parts.len()
        invariant
            i <= parts.len(),
            views == parts@.map_values(|p: String| p@),
            result@ == join_spec(views.take(i as int), separator@),
        decreases parts.len() - i,
    {
        assert(views.take(i + 1).drop_last() =~= views.take(i as int));
        if i > 0 {
            result.append(separator);
        } else {
            assert(result@ =~= Seq::<char>::empty());
        }
        result.append(parts[i].as_str());
        assert(views.take(i + 1).last() == parts@[i as int]@);
        if i == 0 {
            assert(result@ =~= views.take(1)[0]);
        }
        i = i + 1;
    }
    assert(views.take(parts.len() as int) =~= views);
    result
}

/// The decimal digit character for `digit`, as a one-character text.
fn digit_text(digit: u64) -> (result: &'static str)
    requires
        digit < 10,
    ensures
        result@ == seq![digit_char(digit as nat)],
{
    let digits = "0123456789";
    proof {
        reveal_strlit("0123456789");
    }
    let piece = digits.substring_char(digit as usize, digit as usize + 1);
    assert(piece@ =~= seq![digit_char(digit as nat)]);
    piece
}

/// The last `width` decimal digits of `value`, zero-padded on the left
/// (`format!("{value:0width$}")` when `value` has at most `width` digits).
pub fn decimal_padded(value: u64, width: usize) -> (result: String)
    ensures
        result@ == decimal_digits(value as nat, width as nat),
    decreases width,
{
    if width == 0 {
        let empty = String::new();
        assert(empty@ =~= decimal_digits(value as nat, 0));
        empty
    } else {
        let mut rest = decimal_padded(value / 10, width - 1);
        rest.append(digit_text(value % 10));
        rest
    }
}

spec fn pow10(k: nat) -> nat
    decreases k,
{
    if k == 0 {
        1
    } else {
        10 * pow10((k - 1) as nat)
    }
}

proof fn lemma_decimal_width_below(v: nat, k: nat)
    requires
        v < pow10(k),
        k >= 1,
    ensures
        decimal_width(v) <= k,
    decreases k,
{
    if v >= 10 {
        if k == 1 {
            assert(pow10(1) == 10) by {
                reveal_with_fuel(pow10, 2);
            }
        }
        assert(v / 10 < pow10((k - 1) as nat)) by (nonlinear_arith)
            requires
                v < pow10(k),
                k >= 1,
                pow10(k) == 10 * pow10((k - 1) as nat),
        ;
        lemma_decimal_width_below(v / 10, (k - 1) as nat);
    }
}

proof fn lemma_decimal_width_of_u64(value: u64)
    ensures
        1 <= decimal_width(value as nat) <= 20,
{
    assert(pow10(20) == 100000000000000000000nat) by {
        reveal_with_fuel(pow10, 21);
    }
    lemma_decimal_width_below(value as nat, 20);
}

/// `a` comes before `b` in character order: at the first place where
/// they differ `a` has the smaller character, or `a` is a proper prefix
/// of `b`.
pub open spec fn text_precedes(a: Seq<char>, b: Seq<char>) -> bool {
    exists|k: int|
        #![trigger a.take(k), b.take(k)]
        0 <= k <= a.len() && k <= b.len() && a.take(k) == b.take(k) && ((k < a.len() && k
            < b.len() && a[k] < b[k]) || (k == a.len() && k < b.len()))
}

proof fn lemma_digit_char_order(d1: nat, d2: nat)
    requires
        d1 < d2 < 10,
    ensures
        digit_char(d1) < digit_char(d2),
{
}

/// Zero-padded decimals of the same width sort as their values: the
/// first digit where they differ is smaller in the smaller value.
proof fn lemma_decimal_digits_order(v1: nat, v2: nat, width: nat) -> (k: int)
    requires
        v1 < v2 < pow10(width),
    ensures
        0 <= k < width,
        decimal_digits(v1, width).len() == width,
        decimal_digits(v2, width).len() == width,
        decimal_digits(v1, width).take(k) == decimal_digits(v2, width).take(k),
        decimal_digits(v1, width)[k] < decimal_digits(v2, width)[k],
    decreases width,
{
    let w = (width - 1) as nat;
    let a = decimal_digits(v1 / 10, w);
    let b = decimal_digits(v2 / 10, w);
    lemma_decimal_digits_len(v1 / 10, w);
    lemma_decimal_digits_len(v2 / 10, w);
    assert(v1 / 10 <= v2 / 10);
    if v1 / 10 < v2 / 10 {
        assert(v2 / 10 < pow10(w)) by (nonlinear_arith)
            requires
                v2 < pow10(width),
                pow10(width) == 10 * pow10(w),
        ;
        let k = lemma_decimal_digits_order(v1 / 10, v2 / 10, w);
        assert(decimal_digits(v1, width).take(k) =~= a.take(k));
        assert(decimal_digits(v2, width).take(k) =~= b.take(k));
        k
    } else {
        lemma_digit_char_order(v1 % 10, v2 % 10);
        assert(decimal_digits(v1, width).take(w as int) =~= a);
        assert(decimal_digits(v2, width).take(w as int) =~= b);
        w as int
    }
}

proof fn lemma_decimal_digits_len(value: nat, width: nat)
    ensures
        decimal_digits(value, width).len() == width,
    decreases width,
{
    if width > 0 {
        lemma_decimal_digits_len(value / 10, (width - 1) as nat);
    }
}

/// Twenty zero-padded digits of two `u64` values, each followed by any
/// text, sort as the values do.
pub proof fn lemma_padded_u64_order(v1: u64, v2: u64, rest1: Seq<char>, rest2: Seq<char>)
    requires
        v1 < v2,
    ensures
        text_precedes(
            decimal_digits(v1 as nat, 20) + rest1,
            decimal_digits(v2 as nat, 20) + rest2,
        ),
{
    assert(pow10(20) == 100000000000000000000nat) by {
        reveal_with_fuel(pow10, 21);
    }
    let k = lemma_decimal_digits_order(v1 as nat, v2 as nat, 20);
    let a = decimal_digits(v1 as nat, 20) + rest1;
    let b = decimal_digits(v2 as nat, 20) + rest2;
    assert(a.take(k) =~= decimal_digits(v1 as nat, 20).take(k));
    assert(b.take(k) =~= decimal_digits(v2 as nat, 20).take(k));
    assert(a[k] == decimal_digits(v1 as nat, 20)[k]);
    assert(b[k] == decimal_digits(v2 as nat, 20)[k]);
}

/// `value` written in decimal without leading zeros (`value.to_string()`).
pub fn decimal(value: u64) -> (result: String)
    ensures
        result@ == decimal_spec(value as nat),
{
    proof {
        lemma_decimal_width_of_u64(value);
    }
    let mut width: usize = 1;
    let mut current: u64 = value;
    while current >= 10
        invariant
            1 <= width,
            decimal_width(value as nat) <= 20,
            decimal_width(value as nat) == (width - 1) + decimal_width(current as nat),
        decreases current,
    {
        width = width + 1;
        current = current / 10;
    }
    decimal_padded(value, width)
}

} // verus!
