//! Decimal rendering of numbers and small string utilities.

use vstd::prelude::*;

verus! {

/// The ASCII digit for `d` (0-9).
pub open spec fn digit_char(d: nat) -> char {
    if d == 0 { '0' }
    else if d == 1 { '1' }
    else if d == 2 { '2' }
    else if d == 3 { '3' }
    else if d == 4 { '4' }
    else if d == 5 { '5' }
    else if d == 6 { '6' }
    else if d == 7 { '7' }
    else if d == 8 { '8' }
    else { '9' }
}

/// Decimal representation of `n`, most significant digit first, without
/// leading zeros ("0" for zero): what `format!("{}", n)` prints.
pub open spec fn spec_decimal(n: nat) -> Seq<char>
    decreases n,
{
    if n < 10 {
        seq![digit_char(n)]
    } else {
        spec_decimal(n / 10).push(digit_char(n % 10))
    }
}

/// Decimal representation of `n` left-padded with zeros to at least two
/// digits: what `format!("{:02}", n)` prints.
pub open spec fn spec_decimal_2(n: nat) -> Seq<char> {
    if n < 10 {
        seq!['0', digit_char(n)]
    } else {
        spec_decimal(n)
    }
}

fn digit_str(d: usize) -> (s: &'static str)
    requires
        d < 10,
    ensures
        s@ == seq![digit_char(d as nat)],
{
    proof {
        reveal_strlit("0");
        reveal_strlit("1");
        reveal_strlit("2");
        reveal_strlit("3");
        reveal_strlit("4");
        reveal_strlit("5");
        reveal_strlit("6");
        reveal_strlit("7");
        reveal_strlit("8");
        reveal_strlit("9");
    }
    if d == 0 { "0" }
    else if d == 1 { "1" }
    else if d == 2 { "2" }
    else if d == 3 { "3" }
    else if d == 4 { "4" }
    else if d == 5 { "5" }
    else if d == 6 { "6" }
    else if d == 7 { "7" }
    else if d == 8 { "8" }
    else { "9" }
}

/// Appends the decimal representation of `n` to `s`.
pub fn append_decimal(s: &mut String, n: usize)
    ensures
        final(s)@ == old(s)@ + spec_decimal(n as nat),
    decreases n,
{
    if n < 10 {
        s.append(digit_str(n));
    } else {
        append_decimal(s, n / 10);
        s.append(digit_str(n % 10));
    }
}

/// Appends `n` to `s` in decimal, padded with zeros to two digits.
pub fn append_decimal_2(s: &mut String, n: usize)
    ensures
        final(s)@ == old(s)@ + spec_decimal_2(n as nat),
{
    if n < 10 {
        s.append(digit_str(0));
        s.append(digit_str(n));
    } else {
        append_decimal(s, n);
    }
}

/// `prefix` followed by the decimal representation of `n` and `suffix`.
pub fn decimal_between(prefix: &str, n: usize, suffix: &str) -> (s: String)
    ensures
        s@ == prefix@ + spec_decimal(n as nat) + suffix@,
{
    let mut s = String::from_str(prefix);
    append_decimal(&mut s, n);
    s.append(suffix);
    s
}

/// Equality of two string slices by their characters.
pub fn str_eq(a: &str, b: &str) -> (eq: bool)
    ensures
        eq == (a@ == b@),
{
    let n = a.unicode_len();
    if n != b.unicode_len() {
        return false;
    }
    let mut i: usize = 0;
    while i < n
        invariant
            n == a@.len(),
            n == b@.len(),
            i <= n,
            forall|j: int| 0 <= j < i ==> a@[j] == b@[j],
        decreases n - i,
    {
        if a.get_char(i) != b.get_char(i) {
            return false;
        }
        i = i + 1;
    }
    proof {
        assert(a@ =~= b@);
    }
    true
}


/// `needle` occurs in `hay` at position `i`.
pub open spec fn occurs_at(hay: Seq<char>, needle: Seq<char>, i: int) -> bool {
    0 <= i && i + needle.len() <= hay.len() && hay.subrange(i, i + needle.len()) == needle
}

/// `needle` occurs somewhere in `hay` (the empty string occurs everywhere).
pub open spec fn spec_contains(hay: Seq<char>, needle: Seq<char>) -> bool {
    exists|i: int| occurs_at(hay, needle, i)
}

/// Whether `needle` occurs in `hay`.
pub fn str_contains(hay: &str, needle: &str) -> (found: bool)
    ensures
        found == spec_contains(hay@, needle@),
{
    let h = hay.unicode_len();
    let n = needle.unicode_len();
    if n > h {
        proof {
            assert forall|i: int| !occurs_at(hay@, needle@, i) by {}
        }
        return false;
    }
    let last = h - n;
    for i in 0..last
        invariant
            h == hay@.len(),
            n == needle@.len(),
            last == h - n,
            forall|j: int| 0 <= j < i ==> !occurs_at(hay@, needle@, j),
    {
        if str_eq(hay.substring_char(i, i + n), needle) {
            proof {
                assert(occurs_at(hay@, needle@, i as int));
            }
            return true;
        }
    }
    if str_eq(hay.substring_char(last, h), needle) {
        proof {
            assert(occurs_at(hay@, needle@, last as int));
        }
        return true;
    }
    proof {
        assert forall|j: int| !occurs_at(hay@, needle@, j) by {
            if occurs_at(hay@, needle@, j) {
                assert(j <= last);
            }
        }
    }
    false
}

/// Characters with the Unicode `White_Space` property.
pub open spec fn spec_is_white_space(c: char) -> bool {
    let u = c as int;
    (0x09 <= u <= 0x0D) || u == 0x20 || u == 0x85 || u == 0xA0 || u == 0x1680 || (0x2000 <= u
        <= 0x200A) || u == 0x2028 || u == 0x2029 || u == 0x202F || u == 0x205F || u == 0x3000
}

pub open spec fn spec_trim_start(s: Seq<char>) -> Seq<char>
    decreases s.len(),
{
    if s.len() > 0 && spec_is_white_space(s[0]) {
        spec_trim_start(s.drop_first())
    } else {
        s
    }
}

pub open spec fn spec_trim_end(s: Seq<char>) -> Seq<char>
    decreases s.len(),
{
    if s.len() > 0 && spec_is_white_space(s.last()) {
        spec_trim_end(s.drop_last())
    } else {
        s
    }
}

/// `s` without leading and trailing white space.
pub open spec fn spec_trim(s: Seq<char>) -> Seq<char> {
    spec_trim_end(spec_trim_start(s))
}

fn is_white_space(c: char) -> (b: bool)
    ensures
        b == spec_is_white_space(c),
{
    let u = c as u32;
    (0x09 <= u && u <= 0x0D) || u == 0x20 || u == 0x85 || u == 0xA0 || u == 0x1680 || (0x2000 <= u
        && u <= 0x200A) || u == 0x2028 || u == 0x2029 || u == 0x202F || u == 0x205F || u == 0x3000
}

/// Trimming the start drops exactly the white space before position `k`.
proof fn lemma_trim_start_at(s: Seq<char>, k: int)
    requires
        0 <= k <= s.len(),
        forall|j: int| 0 <= j < k ==> spec_is_white_space(#[trigger] s[j]),
        k == s.len() || !spec_is_white_space(s[k]),
    ensures
        spec_trim_start(s) == s.subrange(k, s.len() as int),
    decreases k,
{
    if k == 0 {
        assert(s.subrange(0, s.len() as int) =~= s);
    } else {
        let t = s.drop_first();
        assert forall|j: int| 0 <= j < k - 1 implies spec_is_white_space(#[trigger] t[j]) by {
            assert(t[j] == s[j + 1]);
        }
        if k < s.len() {
            assert(t[k - 1] == s[k]);
        }
        lemma_trim_start_at(t, k - 1);
        assert(t.subrange(k - 1, t.len() as int) =~= s.subrange(k, s.len() as int));
    }
}

/// Trimming the end drops exactly the white space from position `e` on.
proof fn lemma_trim_end_at(t: Seq<char>, e: int)
    requires
        0 <= e <= t.len(),
        forall|j: int| e <= j < t.len() ==> spec_is_white_space(#[trigger] t[j]),
        e == 0 || !spec_is_white_space(t[e - 1]),
    ensures
        spec_trim_end(t) == t.subrange(0, e),
    decreases t.len() - e,
{
    if e == t.len() {
        assert(t.subrange(0, e) =~= t);
    } else {
        let u = t.drop_last();
        assert(spec_is_white_space(t[t.len() - 1]));
        assert forall|j: int| e <= j < u.len() implies spec_is_white_space(#[trigger] u[j]) by {
            assert(u[j] == t[j]);
        }
        if e > 0 {
            assert(u[e - 1] == t[e - 1]);
        }
        lemma_trim_end_at(u, e);
        assert(u.subrange(0, e) =~= t.subrange(0, e));
    }
}

/// `s` without leading and trailing white space, as `str::trim` gives it:
/// characters with the Unicode `White_Space` property are removed.
pub(crate) fn str_trim(s: &str) -> (t: &str)
    ensures
        t@ == spec_trim(s@),
{
    let n = s.unicode_len();
    let mut k: usize = 0;
    while k < n && is_white_space(s.get_char(k))
        invariant
            n == s@.len(),
            k <= n,
            forall|j: int| 0 <= j < k ==> spec_is_white_space(#[trigger] s@[j]),
        decreases n - k,
    {
        k = k + 1;
    }
    let mut e: usize = n;
    while e > k && is_white_space(s.get_char(e - 1))
        invariant
            n == s@.len(),
            k <= e <= n,
            forall|j: int| e <= j < n ==> spec_is_white_space(#[trigger] s@[j]),
        decreases e - k,
    {
        e = e - 1;
    }
    proof {
        lemma_trim_start_at(s@, k as int);
        let rest = s@.subrange(k as int, n as int);
        assert forall|j: int| e - k <= j < rest.len() implies spec_is_white_space(#[trigger] rest[j]) by {
            assert(rest[j] == s@[j + k]);
        }
        if e > k {
            assert(rest[e - k - 1] == s@[e - 1]);
        } else if k < n {
            assert(rest[0] == s@[k as int]);
        }
        lemma_trim_end_at(rest, e - k);
        assert(rest.subrange(0, e - k) =~= s@.subrange(k as int, e as int));
    }
    s.substring_char(k, e)
}

/// The lowercase form `str::to_lowercase` gives a string (Unicode case
/// mapping, character by character, with the final-sigma rule).
pub uninterp spec fn spec_to_lowercase(s: Seq<char>) -> Seq<char>;

/// Every character is ASCII.
pub open spec fn spec_is_ascii(s: Seq<char>) -> bool {
    forall|i: int| 0 <= i < s.len() ==> (s[i] as u32) < 128
}

/// ASCII lowercase of one character: 'A'-'Z' become 'a'-'z', every other
/// character stays.
pub open spec fn spec_ascii_lower(c: char) -> char {
    if 'A' <= c && c <= 'Z' {
        ((c as u32) + 32) as char
    } else {
        c
    }
}

/// The lowercase form of a string: for ASCII text the ASCII case mapping,
/// otherwise what `str::to_lowercase` gives.
pub open spec fn spec_lowercase(s: Seq<char>) -> Seq<char> {
    if spec_is_ascii(s) {
        s.map_values(|c: char| spec_ascii_lower(c))
    } else {
        spec_to_lowercase(s)
    }
}

/// Calls `str::to_lowercase`. The contract claims that the result is a
/// function of the characters of `s`, and that on ASCII text it is the
/// ASCII case mapping (Unicode lowercases 'A'-'Z' to 'a'-'z' and leaves the
/// other ASCII characters alone); the full Unicode mapping is left unsaid.
#[verifier::external_body]
pub(crate) fn str_to_lowercase(s: &str) -> (lower: String)
    ensures
        lower@ == spec_to_lowercase(s@),
        spec_is_ascii(s@) ==> lower@ == s@.map_values(|c: char| spec_ascii_lower(c)),
{
    s.to_lowercase()
}

/// The pieces of `s` between occurrences of `sep`, in order: what
/// `str::split` with a character pattern yields (the empty string gives one
/// empty piece; adjacent separators give empty pieces).
pub open spec fn spec_split(s: Seq<char>, sep: char) -> Seq<Seq<char>>
    decreases s.len(),
{
    if s.len() == 0 {
        seq![Seq::empty()]
    } else {
        let rest = spec_split(s.drop_last(), sep);
        if s.last() == sep {
            rest.push(Seq::empty())
        } else {
            rest.update(rest.len() - 1, rest.last().push(s.last()))
        }
    }
}

/// Splitting always gives at least one piece.
pub proof fn lemma_split_nonempty(s: Seq<char>, sep: char)
    ensures
        spec_split(s, sep).len() >= 1,
    decreases s.len(),
{
    if s.len() > 0 {
        lemma_split_nonempty(s.drop_last(), sep);
    }
}

/// Split `s` at every occurrence of `sep`.
pub fn split_char(s: &str, sep: char) -> (parts: Vec<String>)
    ensures
        crate::util::order::string_views(parts@) == spec_split(s@, sep),
{
    let n = s.unicode_len();
    let mut parts: Vec<String> = Vec::new();
    parts.push(String::new());
    proof {
        assert(s@.take(0) =~= Seq::<char>::empty());
        assert(crate::util::order::string_views(parts@) =~= seq![Seq::<char>::empty()]);
    }
    for i in 0..n
        invariant
            n == s@.len(),
            crate::util::order::string_views(parts@) == spec_split(s@.take(i as int), sep),
            parts@.len() >= 1,
    {
        let c = s.get_char(i);
        let ghost before = crate::util::order::string_views(parts@);
        proof {
            assert(s@.take(i + 1).drop_last() =~= s@.take(i as int));
            assert(s@.take(i + 1).last() == c);
        }
        if c == sep {
            parts.push(String::new());
            proof {
                assert(crate::util::order::string_views(parts@) =~= before.push(Seq::empty()));
            }
        } else {
            let last = parts.len() - 1;
            let mut piece = parts[last].clone();
            let ghost old_piece = piece@;
            piece.append(s.substring_char(i, i + 1));
            proof {
                assert(s@.subrange(i as int, i + 1) =~= seq![c]);
                assert(piece@ =~= old_piece.push(c));
            }
            parts.set(last, piece);
            proof {
                assert(crate::util::order::string_views(parts@) =~= before.update(
                    before.len() - 1,
                    before.last().push(c),
                ));
            }
        }
    }
    proof {
        assert(s@.take(n as int) =~= s@);
    }
    parts
}

pub open spec fn spec_is_digit(c: char) -> bool {
    '0' <= c && c <= '9'
}

/// Value of a string of decimal digits.
pub open spec fn spec_digits_value(d: Seq<char>) -> nat
    decreases d.len(),
{
    if d.len() == 0 {
        0
    } else {
        spec_digits_value(d.drop_last()) * 10 + ((d.last() as int - '0' as int) as nat)
    }
}

/// A string without its leading '+' sign, if it has one.
pub open spec fn spec_strip_plus(s: Seq<char>) -> Seq<char> {
    if s.len() > 0 && s[0] == '+' {
        s.drop_first()
    } else {
        s
    }
}

/// The value of one or more ASCII digits, when it fits in `usize`.
pub open spec fn spec_parse_digits(d: Seq<char>) -> Option<usize> {
    if d.len() > 0 && (forall|i: int| 0 <= i < d.len() ==> spec_is_digit(#[trigger] d[i]))
        && spec_digits_value(d) <= usize::MAX {
        Some(spec_digits_value(d) as usize)
    } else {
        None
    }
}

/// What `str::parse::<usize>` accepts: an optional '+' followed by one or
/// more ASCII digits whose value fits in `usize`.
pub open spec fn spec_parse_usize(s: Seq<char>) -> Option<usize> {
    spec_parse_digits(spec_strip_plus(s))
}

/// The value of a prefix of a digit string is at most the value of the
/// whole string.
proof fn lemma_digits_prefix_le(d: Seq<char>, k: int)
    requires
        0 <= k <= d.len(),
        forall|i: int| 0 <= i < d.len() ==> spec_is_digit(#[trigger] d[i]),
    ensures
        spec_digits_value(d.take(k)) <= spec_digits_value(d),
    decreases d.len(),
{
    if k < d.len() {
        let init = d.drop_last();
        assert forall|i: int| 0 <= i < init.len() implies spec_is_digit(#[trigger] init[i]) by {
            assert(init[i] == d[i]);
        }
        lemma_digits_prefix_le(init, k);
        assert(init.take(k) =~= d.take(k));
    } else {
        assert(d.take(k) =~= d);
    }
}

/// Parse a decimal `usize` as `str::parse::<usize>` does: an optional '+'
/// followed by one or more ASCII digits whose value fits in `usize`.
pub(crate) fn parse_usize(s: &str) -> (v: Option<usize>)
    ensures
        v == spec_parse_usize(s@),
{
    let n = s.unicode_len();
    let start: usize = if n > 0 && s.get_char(0) == '+' { 1 } else { 0 };
    let ghost d = spec_strip_plus(s@);
    proof {
        assert(d =~= s@.subrange(start as int, n as int));
    }
    if start >= n {
        return None;
    }
    let mut value: usize = 0;
    let mut i: usize = start;
    while i < n
        invariant
            n == s@.len(),
            start <= i <= n,
            start < n,
            d == s@.subrange(start as int, n as int),
            d == spec_strip_plus(s@),
            forall|j: int| 0 <= j < i - start ==> spec_is_digit(#[trigger] d[j]),
            value == spec_digits_value(d.take(i - start)),
        decreases n - i,
    {
        let c = s.get_char(i);
        proof {
            assert(d[i - start] == c);
        }
        if !('0' <= c && c <= '9') {
            proof {
                assert(!spec_is_digit(d[i - start]));
                assert(spec_parse_digits(d) is None);
            }
            return None;
        }
        let dv = (c as u32 - '0' as u32) as usize;
        proof {
            assert(d.take(i - start + 1).drop_last() =~= d.take(i - start));
            assert(d.take(i - start + 1).last() == c);
            assert(dv == c as int - '0' as int);
            assert(spec_digits_value(d.take(i - start + 1)) == value * 10 + dv);
        }
        let next = match value.checked_mul(10) {
            Some(m) => m.checked_add(dv),
            None => None,
        };
        match next {
            Some(x) => {
                value = x;
            },
            None => {
                proof {
                    assert(value * 10 + dv > usize::MAX);
                    if forall|j: int| 0 <= j < d.len() ==> spec_is_digit(#[trigger] d[j]) {
                        lemma_digits_prefix_le(d, i - start + 1);
                        assert(spec_digits_value(d) > usize::MAX);
                    }
                    assert(spec_parse_digits(d) is None);
                }
                return None;
            },
        }
        i = i + 1;
    }
    proof {
        assert(d.take(n - start) =~= d);
    }
    Some(value)
}

/// Splitting a string with no separator in it gives the string itself.
pub proof fn lemma_split_no_sep(x: Seq<char>, sep: char)
    requires
        !x.contains(sep),
    ensures
        spec_split(x, sep) == seq![x],
    decreases x.len(),
{
    if x.len() > 0 {
        assert(!x.drop_last().contains(sep)) by {
            if x.drop_last().contains(sep) {
                let i = choose|i: int| 0 <= i < x.drop_last().len() && x.drop_last()[i] == sep;
                assert(x[i] == sep);
            }
        }
        lemma_split_no_sep(x.drop_last(), sep);
        assert(x.last() != sep) by {
            assert(x[x.len() - 1] == x.last());
        }
        assert(x.drop_last().push(x.last()) =~= x);
        let rest = spec_split(x.drop_last(), sep);
        assert(rest == seq![x.drop_last()]);
        assert(rest.len() == 1);
        assert(rest.last() == x.drop_last());
        assert(spec_split(x, sep) == rest.update(rest.len() - 1, rest.last().push(x.last())));
        assert(rest.update(0, x.drop_last().push(x.last())) =~= seq![x]);
    } else {
        assert(x =~= Seq::<char>::empty());
    }
}

/// Splitting `x`, a separator and a separator-free `y` gives the pieces of
/// `x` followed by `y`.
pub proof fn lemma_split_append(x: Seq<char>, sep: char, y: Seq<char>)
    requires
        !y.contains(sep),
    ensures
        spec_split(x + seq![sep] + y, sep) == spec_split(x, sep).push(y),
    decreases y.len(),
{
    let s = x + seq![sep] + y;
    if y.len() == 0 {
        assert(s.drop_last() =~= x);
        assert(s.last() == sep);
        assert(y =~= Seq::<char>::empty());
    } else {
        let y0 = y.drop_last();
        assert(!y0.contains(sep)) by {
            if y0.contains(sep) {
                let i = choose|i: int| 0 <= i < y0.len() && y0[i] == sep;
                assert(y[i] == sep);
            }
        }
        lemma_split_append(x, sep, y0);
        assert(s.drop_last() =~= x + seq![sep] + y0);
        assert(s.last() == y.last());
        assert(y.last() != sep) by {
            assert(y[y.len() - 1] == y.last());
        }
        lemma_split_nonempty(x, sep);
        let px = spec_split(x, sep);
        let rest = spec_split(s.drop_last(), sep);
        assert(rest == px.push(y0));
        assert(rest.len() - 1 == px.len());
        assert(rest.last() == y0);
        assert(spec_split(s, sep) == rest.update(rest.len() - 1, rest.last().push(s.last())));
        assert(y0.push(y.last()) =~= y);
        assert(px.push(y0).update(px.len() as int, y) =~= px.push(y));
        assert(spec_split(s, sep) == px.push(y));
    }
}
proof fn lemma_digit_char(d: nat)
    requires
        d < 10,
    ensures
        spec_is_digit(digit_char(d)),
        digit_char(d) as int - '0' as int == d,
{
}

/// Decimal text is digits only and reads back as the number it was written
/// from.
pub proof fn lemma_decimal_digits(n: nat)
    ensures
        spec_decimal(n).len() > 0,
        forall|i: int| 0 <= i < spec_decimal(n).len() ==> spec_is_digit(#[trigger] spec_decimal(n)[i]),
        spec_digits_value(spec_decimal(n)) == n,
    decreases n,
{
    if n < 10 {
        lemma_digit_char(n);
        let d = spec_decimal(n);
        assert(d.drop_last() =~= Seq::<char>::empty());
        assert(spec_digits_value(Seq::<char>::empty()) == 0);
        assert(d.last() == digit_char(n));
        assert(spec_digits_value(d) == spec_digits_value(d.drop_last()) * 10 + ((d.last() as int
            - '0' as int) as nat));
    } else {
        lemma_decimal_digits(n / 10);
        lemma_digit_char(n % 10);
        let d = spec_decimal(n);
        assert(d.drop_last() =~= spec_decimal(n / 10));
        assert(d.last() == digit_char(n % 10));
        assert(spec_digits_value(d) == spec_digits_value(d.drop_last()) * 10 + ((d.last() as int
            - '0' as int) as nat));
        assert(n == (n / 10) * 10 + n % 10);
        assert forall|i: int| 0 <= i < d.len() implies spec_is_digit(#[trigger] d[i]) by {
            if i < d.len() - 1 {
                assert(d[i] == spec_decimal(n / 10)[i]);
            }
        }
    }
}

/// A decimal number written out parses back to itself.
pub proof fn lemma_parse_decimal(n: usize)
    ensures
        spec_parse_usize(spec_decimal(n as nat)) == Some(n),
        !spec_decimal(n as nat).contains('.'),
{
    lemma_decimal_digits(n as nat);
    let d = spec_decimal(n as nat);
    assert(d[0] != '+') by {
        assert(spec_is_digit(d[0]));
    }
    assert(!d.contains('.')) by {
        if d.contains('.') {
            let i = choose|i: int| 0 <= i < d.len() && d[i] == '.';
            assert(spec_is_digit(d[i]));
        }
    }
}
} // verus!
