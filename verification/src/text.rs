use vstd::prelude::*;
use vstd::utf8::{encode_utf8, encode_scalar};

verus! {

/// `char::is_whitespace`: the characters with the Unicode `White_Space` property.
pub open spec fn is_space(c: char) -> bool {
    ||| '\u{9}' <= c <= '\u{D}'
    ||| c == ' '
    ||| c == '\u{85}'
    ||| c == '\u{A0}'
    ||| c == '\u{1680}'
    ||| '\u{2000}' <= c <= '\u{200A}'
    ||| c == '\u{2028}'
    ||| c == '\u{2029}'
    ||| c == '\u{202F}'
    ||| c == '\u{205F}'
    ||| c == '\u{3000}'
}

/// `s` with its leading whitespace removed.
pub open spec fn trim_start(s: Seq<char>) -> Seq<char>
    decreases s.len(),
{
    if s.len() > 0 && is_space(s[0]) {
        trim_start(s.drop_first())
    } else {
        s
    }
}

/// `s` with its trailing whitespace removed.
pub open spec fn trim_end(s: Seq<char>) -> Seq<char>
    decreases s.len(),
{
    if s.len() > 0 && is_space(s.last()) {
        trim_end(s.drop_last())
    } else {
        s
    }
}

/// `str::trim`: `s` with leading and trailing whitespace removed.
pub open spec fn trim(s: Seq<char>) -> Seq<char> {
    trim_end(trim_start(s))
}

/// Trailing whitespace removed after a prefix that does not end in whitespace stays after it.
pub proof fn lemma_trim_end_after_prefix(p: Seq<char>, s: Seq<char>)
    requires
        p.len() > 0,
        !is_space(p.last()),
    ensures
        trim_end(p + s) == p + trim_end(s),
    decreases s.len(),
{
    if s.len() > 0 && is_space(s.last()) {
        assert((p + s).drop_last() =~= p + s.drop_last());
        lemma_trim_end_after_prefix(p, s.drop_last());
    } else {
        assert((p + s).last() == (if s.len() > 0 { s.last() } else { p.last() }));
    }
}

/// Removing trailing whitespace leaves a prefix.
pub proof fn lemma_trim_end_is_prefix(s: Seq<char>)
    ensures
        trim_end(s).len() <= s.len(),
        trim_end(s) == s.subrange(0, trim_end(s).len() as int),
    decreases s.len(),
{
    if s.len() > 0 && is_space(s.last()) {
        lemma_trim_end_is_prefix(s.drop_last());
        assert(s.drop_last().subrange(0, trim_end(s).len() as int) =~= s.subrange(0, trim_end(s).len() as int));
    } else {
        assert(s.subrange(0, s.len() as int) =~= s);
    }
}

/// A text that begins with no whitespace loses only its trailing whitespace to `trim`.
pub proof fn lemma_trim_without_leading_space(s: Seq<char>)
    requires
        s.len() == 0 || !is_space(s[0]),
    ensures
        trim(s) == trim_end(s),
{
}

/// `s` with every trailing NUL character removed.
pub open spec fn trim_end_nul(s: Seq<char>) -> Seq<char>
    decreases s.len(),
{
    if s.len() > 0 && s.last() == '\0' {
        trim_end_nul(s.drop_last())
    } else {
        s
    }
}

/// `char::to_ascii_uppercase`.
pub open spec fn ascii_upper(c: char) -> char {
    if 'a' <= c <= 'z' {
        ((c as u32) - 32) as char
    } else {
        c
    }
}

/// `str::to_ascii_uppercase`.
pub open spec fn ascii_upper_seq(s: Seq<char>) -> Seq<char> {
    s.map_values(|c: char| ascii_upper(c))
}

/// `str::eq_ignore_ascii_case`.
pub open spec fn eq_ignore_ascii_case(a: Seq<char>, b: Seq<char>) -> bool {
    ascii_upper_seq(a) == ascii_upper_seq(b)
}

/// `needle` occurs in `s` as a contiguous run.
pub open spec fn contains_seq(s: Seq<char>, needle: Seq<char>) -> bool {
    exists|i: int| 0 <= i <= s.len() - needle.len() && #[trigger] s.subrange(i, i + needle.len()) == needle
}

/// Returns whether `c` is whitespace.
pub fn is_whitespace(c: char) -> (r: bool)
    ensures
        r == is_space(c),
{
    ('\u{9}' <= c && c <= '\u{D}') || c == ' ' || c == '\u{85}' || c == '\u{A0}' || c == '\u{1680}'
        || ('\u{2000}' <= c && c <= '\u{200A}') || c == '\u{2028}' || c == '\u{2029}' || c
        == '\u{202F}' || c == '\u{205F}' || c == '\u{3000}'
}

/// Returns the ASCII uppercase form of `c`.
pub fn to_ascii_upper(c: char) -> (r: char)
    ensures
        r == ascii_upper(c),
{
    if 'a' <= c && c <= 'z' {
        let u: u32 = (c as u32) - 32;
        assert(0x41 <= u <= 0x5A);
        char_from_ascii(u)
    } else {
        c
    }
}

/// Converts an ASCII code point to its character.
fn char_from_ascii(u: u32) -> (r: char)
    requires
        u < 0x80,
    ensures
        r == u as char,
        r as u32 == u,
{
    let b: u8 = u as u8;
    b as char
}

/// Collects the characters of a string slice.
pub fn chars_of(s: &str) -> (r: Vec<char>)
    ensures
        r@ == s@,
{
    let mut v: Vec<char> = Vec::new();
    for c in it: s.chars()
        invariant
            v@ == it.seq().take(it.index() as int),
    {
        v.push(c);
    }
    v
}

/// Appends one character to a string (`String::push`).
#[verifier::external_body]
pub(crate) fn push_char(s: &mut String, c: char)
    ensures
        final(s)@ == old(s)@.push(c),
{
    s.push(c);
}

/// Builds a string from the characters `v[from..to]`.
pub fn string_from_chars(v: &Vec<char>, from: usize, to: usize) -> (r: String)
    requires
        from <= to <= v.len(),
    ensures
        r@ == v@.subrange(from as int, to as int),
{
    let mut out = String::new();
    let mut i = from;
    while i < to
        invariant
            from <= i <= to <= v.len(),
            out@ == v@.subrange(from as int, i as int),
        decreases to - i,
    {
        push_char(&mut out, v[i]);
        assert(v@.subrange(from as int, i + 1) =~= v@.subrange(from as int, i as int).push(v@[i as int]));
        i += 1;
    }
    out
}

/// Appends the characters of `v` to `out`.
pub fn push_chars(out: &mut String, v: &Vec<char>)
    ensures
        final(out)@ == old(out)@ + v@,
{
    let mut i: usize = 0;
    while i < v.len()
        invariant
            i <= v.len(),
            out@ == old(out)@ + v@.take(i as int),
        decreases v.len() - i,
    {
        push_char(out, v[i]);
        assert(v@.take(i + 1) =~= v@.take(i as int).push(v@[i as int]));
        i += 1;
    }
    assert(v@.take(v.len() as int) =~= v@);
}

/// The bounds `(start, end)` of `v` with leading and trailing whitespace removed.
pub fn trim_bounds(v: &Vec<char>) -> (r: (usize, usize))
    ensures
        r.0 <= r.1 <= v.len(),
        v@.subrange(r.0 as int, r.1 as int) == trim(v@),
{
    let n = v.len();
    let mut i: usize = 0;
    assert(v@.subrange(0, n as int) =~= v@);
    while i < n && is_whitespace(v[i])
        invariant
            i <= n == v.len(),
            trim_start(v@) == trim_start(v@.subrange(i as int, n as int)),
        decreases n - i,
    {
        assert(v@.subrange(i + 1, n as int) =~= v@.subrange(i as int, n as int).drop_first());
        i += 1;
    }
    let ghost rest = v@.subrange(i as int, n as int);
    assert(trim_start(v@) == rest);
    let mut j: usize = n;
    while j > i && is_whitespace(v[j - 1])
        invariant
            i <= j <= n == v.len(),
            rest == v@.subrange(i as int, n as int),
            trim_end(rest) == trim_end(v@.subrange(i as int, j as int)),
        decreases j - i,
    {
        assert(v@.subrange(i as int, j - 1) =~= v@.subrange(i as int, j as int).drop_last());
        j -= 1;
    }
    (i, j)
}

/// A copy of `s` with leading and trailing whitespace removed (`str::trim`).
pub fn trim_str(s: &str) -> (r: String)
    ensures
        r@ == trim(s@),
{
    let chars = chars_of(s);
    let (from, to) = trim_bounds(&chars);
    string_from_chars(&chars, from, to)
}

/// The end of `v[..to]` with trailing NUL characters removed.
pub fn trim_end_nul_bound(v: &Vec<char>, to: usize) -> (r: usize)
    requires
        to <= v.len(),
    ensures
        r <= to,
        v@.subrange(0, r as int) == trim_end_nul(v@.subrange(0, to as int)),
{
    let mut j = to;
    while j > 0 && v[j - 1] == '\0'
        invariant
            j <= to <= v.len(),
            trim_end_nul(v@.subrange(0, to as int)) == trim_end_nul(v@.subrange(0, j as int)),
        decreases j,
    {
        assert(v@.subrange(0, j - 1) =~= v@.subrange(0, j as int).drop_last());
        j -= 1;
    }
    j
}

/// Returns whether `v[from..to]` contains `c`.
pub fn range_contains(v: &Vec<char>, from: usize, to: usize, c: char) -> (r: bool)
    requires
        from <= to <= v.len(),
    ensures
        r == v@.subrange(from as int, to as int).contains(c),
{
    let mut i = from;
    while i < to
        invariant
            from <= i <= to <= v.len(),
            forall|k: int| from <= k < i ==> v@[k] != c,
        decreases to - i,
    {
        if v[i] == c {
            assert(v@.subrange(from as int, to as int)[i - from] == c);
            return true;
        }
        i += 1;
    }
    assert forall|k: int| 0 <= k < to - from implies v@.subrange(from as int, to as int)[k] != c by {
        assert(v@[from + k] != c);
    }
    false
}

/// Returns whether `v[from..]` starts with `prefix`.
pub fn range_starts_with(v: &Vec<char>, from: usize, to: usize, prefix: &Vec<char>) -> (r: bool)
    requires
        from <= to <= v.len(),
    ensures
        r == (prefix.len() <= to - from && v@.subrange(from as int, from + prefix.len())
            == prefix@),
{
    if prefix.len() > to - from {
        return false;
    }
    let mut k: usize = 0;
    while k < prefix.len()
        invariant
            prefix.len() <= to - from,
            from <= to <= v.len(),
            k <= prefix.len(),
            forall|m: int| 0 <= m < k ==> v@[from + m] == prefix@[m],
        decreases prefix.len() - k,
    {
        if v[from + k] != prefix[k] {
            assert(v@.subrange(from as int, from + prefix.len())[k as int] != prefix@[k as int]);
            return false;
        }
        k += 1;
    }
    assert(v@.subrange(from as int, from + prefix.len()) =~= prefix@);
    true
}

/// Returns whether two character sequences are equal.
pub fn chars_equal(a: &Vec<char>, b: &Vec<char>) -> (r: bool)
    ensures
        r == (a@ == b@),
{
    if a.len() != b.len() {
        return false;
    }
    let mut i: usize = 0;
    while i < a.len()
        invariant
            a.len() == b.len(),
            i <= a.len(),
            forall|k: int| 0 <= k < i ==> a@[k] == b@[k],
        decreases a.len() - i,
    {
        if a[i] != b[i] {
            return false;
        }
        i += 1;
    }
    assert(a@ =~= b@);
    true
}

/// Returns whether two character sequences are equal when ASCII letters are compared
/// without regard to case.
pub fn chars_eq_ignore_ascii_case(a: &Vec<char>, b: &Vec<char>) -> (r: bool)
    ensures
        r == eq_ignore_ascii_case(a@, b@),
{
    if a.len() != b.len() {
        assert(ascii_upper_seq(a@).len() != ascii_upper_seq(b@).len());
        return false;
    }
    let mut i: usize = 0;
    while i < a.len()
        invariant
            a.len() == b.len(),
            i <= a.len(),
            forall|k: int| 0 <= k < i ==> ascii_upper(a@[k]) == ascii_upper(b@[k]),
        decreases a.len() - i,
    {
        if to_ascii_upper(a[i]) != to_ascii_upper(b[i]) {
            assert(ascii_upper_seq(a@)[i as int] != ascii_upper_seq(b@)[i as int]);
            return false;
        }
        i += 1;
    }
    assert(ascii_upper_seq(a@) =~= ascii_upper_seq(b@));
    true
}

/// The character of a decimal digit.
pub open spec fn digit_char(d: nat) -> char {
    (('0' as u32) + d) as char
}

/// The decimal notation of a natural number, without leading zeros.
pub open spec fn decimal(n: nat) -> Seq<char>
    decreases n,
{
    if n < 10 {
        seq![digit_char(n)]
    } else {
        decimal(n / 10).push(digit_char(n % 10))
    }
}

/// The decimal notation of an integer, with a leading `-` when it is negative.
pub open spec fn signed_decimal(n: int) -> Seq<char> {
    if n < 0 {
        seq!['-'] + decimal((-n) as nat)
    } else {
        decimal(n as nat)
    }
}

/// Writes the decimal notation of `n` after `out`.
pub fn push_decimal(out: &mut String, n: u64)
    ensures
        final(out)@ == old(out)@ + decimal(n as nat),
    decreases n,
{
    if n >= 10 {
        push_decimal(out, n / 10);
    }
    let d: u64 = n % 10;
    let c = char_from_ascii((0x30 + d) as u32);
    push_char(out, c);
    proof {
        if n >= 10 {
            assert(decimal(n as nat) == decimal((n / 10) as nat).push(digit_char((n % 10) as nat)));
        }
    }
    assert(final(out)@ =~= old(out)@ + decimal(n as nat));
}

/// Writes the decimal notation of a signed `n` after `out`.
pub fn push_signed_decimal(out: &mut String, n: i64)
    ensures
        final(out)@ == old(out)@ + signed_decimal(n as int),
{
    if n < 0 {
        push_char(out, '-');
        let magnitude: u64 = (0i128 - n as i128) as u64;
        push_decimal(out, magnitude);
        assert(final(out)@ =~= old(out)@ + signed_decimal(n as int));
    } else {
        push_decimal(out, n as u64);
    }
}

/// A string holding `prefix` followed by the decimal notation of `n`.
pub fn with_decimal(prefix: &str, n: u64) -> (r: String)
    ensures
        r@ == prefix@ + decimal(n as nat),
{
    let mut out = prefix.to_owned();
    push_decimal(&mut out, n);
    out
}

/// Returns whether `needle` occurs in `hay` as a contiguous run.
pub fn contains_chars(hay: &Vec<char>, needle: &Vec<char>) -> (r: bool)
    ensures
        r == contains_seq(hay@, needle@),
{
    if needle.len() == 0 {
        assert(hay@.subrange(0int, 0int + needle@.len()) =~= needle@);
        return true;
    }
    if needle.len() > hay.len() {
        return false;
    }
    let mut i: usize = 0;
    while i <= hay.len() - needle.len()
        invariant
            0 < needle.len() <= hay.len(),
            i <= hay.len() - needle.len() + 1,
            forall|k: int| 0 <= k < i ==> #[trigger] hay@.subrange(k, k + needle.len()) != needle@,
        decreases hay.len() - i,
    {
        if range_starts_with(hay, i, hay.len(), needle) {
            return true;
        }
        i += 1;
    }
    false
}

/// The ASCII uppercase form of every character of `v`.
pub fn to_ascii_upper_chars(v: &Vec<char>) -> (r: Vec<char>)
    ensures
        r@ == ascii_upper_seq(v@),
{
    let mut out: Vec<char> = Vec::new();
    let mut i: usize = 0;
    while i < v.len()
        invariant
            i <= v.len(),
            out@ == ascii_upper_seq(v@.take(i as int)),
        decreases v.len() - i,
    {
        out.push(to_ascii_upper(v[i]));
        assert(ascii_upper_seq(v@.take(i + 1)) =~= ascii_upper_seq(v@.take(i as int)).push(
            ascii_upper(v@[i as int]),
        ));
        i += 1;
    }
    assert(v@.take(v.len() as int) =~= v@);
    out
}

/// The words of `s`: its maximal runs of non-whitespace characters, in order
/// (`str::split_whitespace`).
pub open spec fn words(s: Seq<char>) -> Seq<Seq<char>>
    decreases s.len(),
{
    if s.len() == 0 {
        seq![]
    } else if is_space(s.last()) {
        words(s.drop_last())
    } else if s.len() >= 2 && !is_space(s[s.len() - 2]) {
        let w = words(s.drop_last());
        w.update(w.len() - 1, w.last().push(s.last()))
    } else {
        words(s.drop_last()).push(seq![s.last()])
    }
}

/// Words joined by single spaces.
pub open spec fn join_words(w: Seq<Seq<char>>) -> Seq<char>
    decreases w.len(),
{
    if w.len() == 0 {
        seq![]
    } else if w.len() == 1 {
        w[0]
    } else {
        join_words(w.drop_last()) + seq![' '] + w.last()
    }
}

/// A text that ends in a non-whitespace character has a word.
proof fn lemma_words_nonempty(s: Seq<char>)
    requires
        s.len() > 0,
        !is_space(s.last()),
    ensures
        words(s).len() > 0,
    decreases s.len(),
{
    if s.len() >= 2 && !is_space(s[s.len() - 2]) {
        lemma_words_nonempty(s.drop_last());
    }
}

/// Extending the last word extends the joined text by the same character.
proof fn lemma_join_extend_last(w: Seq<Seq<char>>, c: char)
    requires
        w.len() > 0,
    ensures
        join_words(w.update(w.len() - 1, w.last().push(c))) == join_words(w).push(c),
{
    let u = w.update(w.len() - 1, w.last().push(c));
    if w.len() > 1 {
        assert(u.drop_last() =~= w.drop_last());
        assert(join_words(u) =~= join_words(w).push(c));
    }
}

/// Writes the words of `v` joined by single spaces.
pub fn collapse_whitespace(v: &Vec<char>) -> (r: String)
    ensures
        r@ == join_words(words(v@)),
{
    let mut out = String::new();
    let mut i: usize = 0;
    let mut any_word = false;
    while i < v.len()
        invariant
            i <= v.len(),
            out@ == join_words(words(v@.take(i as int))),
            any_word == (words(v@.take(i as int)).len() > 0),
        decreases v.len() - i,
    {
        let c = v[i];
        let ghost prefix = v@.take(i as int);
        let ghost next = v@.take(i + 1);
        assert(next.drop_last() =~= prefix);
        assert(next.last() == c);
        if is_whitespace(c) {
        } else if i > 0 && !is_whitespace(v[i - 1]) {
            assert(prefix.last() == v@[i - 1]);
            assert(next[next.len() - 2] == v@[i - 1]);
            proof {
                lemma_words_nonempty(prefix);
                lemma_join_extend_last(words(prefix), c);
            }
            push_char(&mut out, c);
            assert(words(next).len() > 0);
        } else {
            proof {
                if i > 0 {
                    assert(next[next.len() - 2] == v@[i - 1]);
                }
            }
            let ghost w = words(prefix);
            if any_word {
                assert(w.push(seq![c]).drop_last() =~= w);
                push_char(&mut out, ' ');
            } else {
                assert(out@ =~= Seq::<char>::empty());
            }
            push_char(&mut out, c);
            assert(out@ =~= join_words(w.push(seq![c])));
            any_word = true;
        }
        i += 1;
    }
    assert(v@.take(v.len() as int) =~= v@);
    out
}

/// The number of bytes of the UTF-8 encoding of a character.
pub open spec fn utf8_width(c: char) -> int {
    if (c as u32) < 0x80 {
        1
    } else if (c as u32) < 0x800 {
        2
    } else if (c as u32) < 0x10000 {
        3
    } else {
        4
    }
}

/// The encoding of a suffix is one character's width longer than the next suffix.
proof fn lemma_encode_suffix(s: Seq<char>, j: int)
    requires
        0 <= j < s.len(),
    ensures
        encode_utf8(s.skip(j)).len() == utf8_width(s[j]) + encode_utf8(s.skip(j + 1)).len(),
{
    assert(s.skip(j).drop_first() =~= s.skip(j + 1));
    assert(s.skip(j)[0] == s[j]);
    let c = s[j];
    vstd::utf8::char_is_scalar(c);
    let u = c as u32;
    assert(vstd::utf8::is_scalar(u));
    if u < 0x80 {
        assert(vstd::utf8::has_width_1_encoding(u));
    } else if u < 0x800 {
        assert(vstd::utf8::has_width_2_encoding(u));
    } else if u < 0x10000 {
        assert(vstd::utf8::has_width_3_encoding(u));
    } else {
        assert(!vstd::utf8::has_width_1_encoding(u) && !vstd::utf8::has_width_2_encoding(u)
            && !vstd::utf8::has_width_3_encoding(u));
    }
    assert(encode_scalar(u).len() == utf8_width(c));
}

/// The encoding of a text is at least as long as that of any suffix.
proof fn lemma_encode_suffix_shorter(s: Seq<char>, j: int)
    requires
        0 <= j <= s.len(),
    ensures
        encode_utf8(s).len() >= encode_utf8(s.skip(j)).len(),
    decreases j,
{
    if j > 0 {
        lemma_encode_suffix(s, j - 1);
        lemma_encode_suffix_shorter(s, j - 1);
    } else {
        assert(s.skip(0) =~= s);
    }
}

/// Every character takes at least one byte of UTF-8.
pub proof fn lemma_encode_at_least_chars(s: Seq<char>, j: int)
    requires
        0 <= j <= s.len(),
    ensures
        encode_utf8(s.skip(j)).len() >= s.len() - j,
    decreases s.len() - j,
{
    if j < s.len() {
        lemma_encode_suffix(s, j);
        lemma_encode_at_least_chars(s, j + 1);
    }
}

/// Returns whether the UTF-8 encoding of `v` is longer than `limit` bytes.
pub fn utf8_len_exceeds(v: &Vec<char>, limit: usize) -> (r: bool)
    requires
        limit < usize::MAX - 4,
    ensures
        r == (encode_utf8(v@).len() > limit),
{
    let mut j: usize = v.len();
    let mut total: usize = 0;
    assert(v@.skip(v.len() as int) =~= Seq::<char>::empty());
    while j > 0
        invariant
            j <= v.len(),
            total == encode_utf8(v@.skip(j as int)).len(),
            total <= limit,
            limit < usize::MAX - 4,
        decreases j,
    {
        let c = v[j - 1];
        let w: usize = if (c as u32) < 0x80 {
            1
        } else if (c as u32) < 0x800 {
            2
        } else if (c as u32) < 0x10000 {
            3
        } else {
            4
        };
        proof {
            lemma_encode_suffix(v@, j - 1);
        }
        total = total + w;
        j = j - 1;
        if total > limit {
            proof {
                lemma_encode_suffix_shorter(v@, j as int);
            }
            return true;
        }
    }
    assert(v@.skip(0) =~= v@);
    false
}

} // verus!
