//! Character-level predicates and transforms on text.
use vstd::prelude::*;
use vstd::string::StrSliceExecFns;

verus! {

/// ASCII letter.
pub open spec fn is_ascii_letter(c: char) -> bool {
    ('a' <= c && c <= 'z') || ('A' <= c && c <= 'Z')
}

/// ASCII decimal digit.
pub open spec fn is_ascii_digit(c: char) -> bool {
    '0' <= c && c <= '9'
}

/// May start an identifier: a letter or an underscore.
pub open spec fn is_ident_start(c: char) -> bool {
    c == '_' || is_ascii_letter(c)
}

/// May continue an identifier: a letter, a digit or an underscore.
pub open spec fn is_ident_continue(c: char) -> bool {
    is_ident_start(c) || is_ascii_digit(c)
}

/// A conservative identifier: non-empty, a letter or underscore first,
/// then letters, digits and underscores only.
pub open spec fn valid_identifier(s: Seq<char>) -> bool {
    &&& s.len() > 0
    &&& is_ident_start(s[0])
    &&& forall|i: int| 1 <= i < s.len() ==> is_ident_continue(#[trigger] s[i])
}

/// The identifier filter refuses a name that holds a `;` or a `-` or starts
/// with a digit, and accepts one that starts with a letter or an underscore
/// followed by letters, digits and underscores.
pub proof fn lemma_identifier_filter(s: Seq<char>)
    ensures
        (exists|i: int| 0 <= i < s.len() && (#[trigger] s[i] == ';' || s[i] == '-'))
            ==> !valid_identifier(s),
        s.len() > 0 && is_ascii_digit(s[0]) ==> !valid_identifier(s),
        s.len() > 0 && is_ident_start(s[0]) && (forall|i: int|
            1 <= i < s.len() ==> is_ident_continue(#[trigger] s[i])) ==> valid_identifier(s),
{
}

/// Whether `input` passes the identifier filter used before a field name is
/// placed into statement text.
pub fn is_valid_identifier(input: &str) -> (r: bool)
    ensures
        r == valid_identifier(input@),
{
    let n = input.unicode_len();
    if n == 0 {
        return false;
    }
    let first = input.get_char(0);
    if !(first == '_' || (first >= 'a' && first <= 'z') || (first >= 'A' && first <= 'Z')) {
        return false;
    }
    let mut i: usize = 1;
    while i < n
        invariant
            n == input@.len(),
            1 <= i <= n,
            is_ident_start(input@[0]),
            forall|j: int| 1 <= j < i ==> is_ident_continue(#[trigger] input@[j]),
        decreases n - i,
    {
        let c = input.get_char(i);
        if !(c == '_' || (c >= 'a' && c <= 'z') || (c >= 'A' && c <= 'Z') || (c >= '0' && c
            <= '9')) {
            return false;
        }
        i = i + 1;
    }
    true
}

/// `String::push` appends one character.
pub assume_specification[ std::string::String::push ](s: &mut std::string::String, c: char)
    ensures
        final(s)@ == old(s)@.push(c),
;

/// ASCII upper-case letter.
pub open spec fn is_ascii_upper(c: char) -> bool {
    'A' <= c && c <= 'Z'
}

/// ASCII lower-case letter or decimal digit.
pub open spec fn is_lower_or_digit(c: char) -> bool {
    ('a' <= c && c <= 'z') || is_ascii_digit(c)
}

/// The ASCII lower-case form of a character; other characters are unchanged.
pub open spec fn lower_char(c: char) -> char {
    if is_ascii_upper(c) {
        ((c as u8) + 32) as char
    } else {
        c
    }
}

/// Lower-cases one ASCII character.
pub fn ascii_lower(c: char) -> (r: char)
    ensures
        r == lower_char(c),
{
    if c >= 'A' && c <= 'Z' {
        ((c as u8) + 32) as char
    } else {
        c
    }
}

/// `hay` holds `needle` at `at`, comparing after ASCII lower-casing `hay`.
pub open spec fn folded_match_at(hay: Seq<char>, needle: Seq<char>, at: int) -> bool {
    &&& 0 <= at
    &&& at + needle.len() <= hay.len()
    &&& forall|j: int| 0 <= j < needle.len() ==> lower_char(#[trigger] hay[at + j]) == needle[j]
}

/// The ASCII lower-cased `hay` contains `needle`.
pub open spec fn folded_contains(hay: Seq<char>, needle: Seq<char>) -> bool {
    exists|at: int| folded_match_at(hay, needle, at)
}

/// `hay` contains `needle` exactly.
pub open spec fn contains_seq(hay: Seq<char>, needle: Seq<char>) -> bool {
    exists|at: int|
        0 <= at && at + needle.len() <= hay.len() && #[trigger] hay.subrange(at, at + needle.len())
            =~= needle
}

fn folded_match(hay: &str, needle: &str, at: usize, hn: usize, nn: usize) -> (r: bool)
    requires
        hn == hay@.len(),
        nn == needle@.len(),
        at + nn <= hn,
    ensures
        r == folded_match_at(hay@, needle@, at as int),
{
    let mut j: usize = 0;
    while j < nn
        invariant
            hn == hay@.len(),
            nn == needle@.len(),
            at + nn <= hn,
            j <= nn,
            forall|k: int| 0 <= k < j ==> lower_char(#[trigger] hay@[at + k]) == needle@[k],
        decreases nn - j,
    {
        if ascii_lower(hay.get_char(at + j)) != needle.get_char(j) {
            return false;
        }
        j = j + 1;
    }
    true
}

/// Whether `hay`, ASCII lower-cased, contains `needle`.
pub fn contains_folded(hay: &str, needle: &str) -> (r: bool)
    ensures
        r == folded_contains(hay@, needle@),
{
    let hn = hay.unicode_len();
    let nn = needle.unicode_len();
    if nn > hn {
        return false;
    }
    let mut at: usize = 0;
    while at <= hn - nn
        invariant
            hn == hay@.len(),
            nn == needle@.len(),
            nn <= hn,
            at <= hn - nn + 1,
            forall|k: int| 0 <= k < at ==> !#[trigger] folded_match_at(hay@, needle@, k),
        decreases hn - nn + 1 - at,
    {
        if folded_match(hay, needle, at, hn, nn) {
            return true;
        }
        at = at + 1;
    }
    assert forall|k: int| !#[trigger] folded_match_at(hay@, needle@, k) by {
        if 0 <= k && k + nn <= hn {
            assert(k < at);
        }
    }
    false
}

/// Whether `hay` contains `needle` exactly.
pub fn contains_text(hay: &str, needle: &str) -> (r: bool)
    ensures
        r == contains_seq(hay@, needle@),
{
    let hn = hay.unicode_len();
    let nn = needle.unicode_len();
    if nn > hn {
        return false;
    }
    let mut at: usize = 0;
    while at <= hn - nn
        invariant
            hn == hay@.len(),
            nn == needle@.len(),
            nn <= hn,
            at <= hn - nn + 1,
            forall|k: int|
                0 <= k < at ==> !(#[trigger] hay@.subrange(k, k + nn as int) =~= needle@),
        decreases hn - nn + 1 - at,
    {
        let mut j: usize = 0;
        let mut same = true;
        while j < nn
            invariant
                hn == hay@.len(),
                nn == needle@.len(),
                at + nn <= hn,
                j <= nn,
                same == forall|k: int| 0 <= k < j ==> hay@[at + k] == needle@[k],
            decreases nn - j,
        {
            if hay.get_char(at + j) != needle.get_char(j) {
                same = false;
            }
            j = j + 1;
        }
        if same {
            assert(hay@.subrange(at as int, at + nn) =~= needle@);
            return true;
        }
        assert(!(hay@.subrange(at as int, at + nn) =~= needle@)) by {
            if hay@.subrange(at as int, at + nn) =~= needle@ {
                assert forall|k: int| 0 <= k < nn implies hay@[at + k] == needle@[k] by {
                    assert(hay@.subrange(at as int, at + nn)[k] == hay@[at + k]);
                }
            }
        }
        at = at + 1;
    }
    assert forall|k: int|
        0 <= k && k + nn <= hn implies !(#[trigger] hay@.subrange(k, k + nn as int) =~= needle@) by {
        assert(k < at);
    }
    false
}

/// The text that one character contributes to the snake-case form, given
/// whether the character before it was a lower-case letter or a digit.
pub open spec fn snake_piece(prev_lower_or_digit: bool, c: char) -> Seq<char> {
    if is_ascii_upper(c) {
        if prev_lower_or_digit {
            seq!['_', lower_char(c)]
        } else {
            seq![lower_char(c)]
        }
    } else {
        seq![c]
    }
}

/// Whether the last character of `s` is a lower-case letter or a digit.
pub open spec fn ends_lower_or_digit(s: Seq<char>) -> bool {
    s.len() > 0 && is_lower_or_digit(s.last())
}

/// Snake case: an underscore before each upper-case letter that follows a
/// lower-case letter or digit, and every upper-case letter lowered.
pub open spec fn snake_case(s: Seq<char>) -> Seq<char>
    decreases s.len(),
{
    if s.len() == 0 {
        Seq::empty()
    } else {
        snake_case(s.drop_last()) + snake_piece(ends_lower_or_digit(s.drop_last()), s.last())
    }
}

/// The snake-case form of `input`.
pub fn to_snake_case(input: &str) -> (r: String)
    ensures
        r@ == snake_case(input@),
{
    let n = input.unicode_len();
    let mut out = String::new();
    let mut prev = false;
    let mut i: usize = 0;
    while i < n
        invariant
            n == input@.len(),
            i <= n,
            out@ == snake_case(input@.subrange(0, i as int)),
            prev == ends_lower_or_digit(input@.subrange(0, i as int)),
        decreases n - i,
    {
        let ch = input.get_char(i);
        proof {
            let s = input@.subrange(0, i + 1);
            assert(s.drop_last() =~= input@.subrange(0, i as int));
            assert(s.last() == ch);
        }
        if ch >= 'A' && ch <= 'Z' {
            if prev {
                out.push('_');
            }
            out.push(ascii_lower(ch));
            prev = false;
        } else {
            out.push(ch);
            prev = (ch >= 'a' && ch <= 'z') || (ch >= '0' && ch <= '9');
        }
        proof {
            assert(out@ =~= snake_case(input@.subrange(0, i + 1)));
        }
        i = i + 1;
    }
    assert(input@.subrange(0, n as int) =~= input@);
    out
}

/// Where the last `::`-separated segment of the first `i` characters starts.
pub open spec fn segment_start(s: Seq<char>, i: int) -> int
    decreases i,
{
    if i < 2 {
        0
    } else if s[i - 2] == ':' && s[i - 1] == ':' {
        i
    } else {
        segment_start(s, i - 1)
    }
}

/// The last `::`-separated segment of a path such as `crate::domain::DbUser`.
pub open spec fn last_segment(s: Seq<char>) -> Seq<char> {
    s.subrange(segment_start(s, s.len() as int), s.len() as int)
}

proof fn lemma_segment_start_bounds(s: Seq<char>, i: int)
    requires
        0 <= i,
    ensures
        0 <= segment_start(s, i) <= i,
    decreases i,
{
    if i >= 2 {
        lemma_segment_start_bounds(s, i - 1);
    }
}

/// The last `::`-separated segment of `path`.
pub fn last_path_segment(path: &str) -> (r: String)
    ensures
        r@ == last_segment(path@),
{
    let n = path.unicode_len();
    let mut start: usize = 0;
    if n > 0 {
        let mut i: usize = 1;
        while i < n
            invariant
                n == path@.len(),
                1 <= i <= n,
                start as int == segment_start(path@, i as int),
                start <= i,
            decreases n - i,
        {
            if path.get_char(i - 1) == ':' && path.get_char(i) == ':' {
                start = i + 1;
            }
            i = i + 1;
        }
    }
    proof {
        lemma_segment_start_bounds(path@, n as int);
    }
    let mut out = String::new();
    let mut k: usize = start;
    while k < n
        invariant
            n == path@.len(),
            start <= k <= n,
            start as int == segment_start(path@, n as int),
            out@ == path@.subrange(start as int, k as int),
        decreases n - k,
    {
        out.push(path.get_char(k));
        proof {
            assert(out@ =~= path@.subrange(start as int, k + 1));
        }
        k = k + 1;
    }
    out
}

/// The character of a decimal digit.
pub open spec fn digit_char(d: nat) -> char
    recommends
        d < 10,
{
    ((d as u8) + 48) as char
}

/// The decimal digits of `n`, most significant first, without leading zeros.
pub open spec fn digits_of(n: nat) -> Seq<char>
    decreases n,
{
    if n < 10 {
        seq![digit_char(n)]
    } else {
        digits_of(n / 10).push(digit_char(n % 10))
    }
}

/// The decimal text of `n`, with a leading `-` when negative.
pub open spec fn decimal_text(n: int) -> Seq<char> {
    if n < 0 {
        seq!['-'] + digits_of((-n) as nat)
    } else {
        digits_of(n as nat)
    }
}

fn push_digits(out: &mut String, m: u64)
    ensures
        final(out)@ == old(out)@ + digits_of(m as nat),
    decreases m,
{
    if m >= 10 {
        push_digits(out, m / 10);
    }
    let d = (m % 10) as u8;
    let ghost before = out@;
    out.push((d + 48) as char);
    assert(out@ =~= old(out)@ + digits_of(m as nat)) by {
        if m >= 10 {
            assert(before =~= old(out)@ + digits_of((m / 10) as nat));
        }
    }
}

/// The decimal text of `n`.
pub fn i64_to_text(n: i64) -> (r: String)
    ensures
        r@ == decimal_text(n as int),
{
    let mut out = String::new();
    if n < 0 {
        out.push('-');
        let m: u64 = (0i128 - n as i128) as u64;
        push_digits(&mut out, m);
    } else {
        push_digits(&mut out, n as u64);
    }
    out
}

/// Unicode white space, as `char::is_whitespace` defines it.
pub open spec fn is_white(c: char) -> bool {
    ||| c == '\t' || c == '\n' || c == '\u{0B}' || c == '\u{0C}' || c == '\r' || c == ' '
    ||| c == '\u{85}' || c == '\u{A0}' || c == '\u{1680}'
    ||| ('\u{2000}' <= c && c <= '\u{200A}')
    ||| c == '\u{2028}' || c == '\u{2029}' || c == '\u{202F}' || c == '\u{205F}' || c == '\u{3000}'
}

pub fn white(c: char) -> (r: bool)
    ensures
        r == is_white(c),
{
    c == '\t' || c == '\n' || c == '\u{0B}' || c == '\u{0C}' || c == '\r' || c == ' ' || c
        == '\u{85}' || c == '\u{A0}' || c == '\u{1680}' || (c >= '\u{2000}' && c <= '\u{200A}')
        || c == '\u{2028}' || c == '\u{2029}' || c == '\u{202F}' || c == '\u{205F}' || c
        == '\u{3000}'
}

/// Number of leading white-space characters.
pub open spec fn lead_ws(s: Seq<char>) -> nat
    decreases s.len(),
{
    if s.len() > 0 && is_white(s[0]) {
        1 + lead_ws(s.drop_first())
    } else {
        0
    }
}

/// Number of trailing white-space characters.
pub open spec fn trail_ws(s: Seq<char>) -> nat
    decreases s.len(),
{
    if s.len() > 0 && is_white(s.last()) {
        1 + trail_ws(s.drop_last())
    } else {
        0
    }
}

/// `s` without leading and trailing white space.
pub open spec fn trimmed(s: Seq<char>) -> Seq<char> {
    let a = lead_ws(s) as int;
    let t = s.subrange(a, s.len() as int);
    t.subrange(0, t.len() - trail_ws(t))
}

pub proof fn lemma_lead_ws_exact(s: Seq<char>, a: int)
    requires
        0 <= a <= s.len(),
        forall|i: int| 0 <= i < a ==> is_white(#[trigger] s[i]),
        a < s.len() ==> !is_white(s[a]),
    ensures
        lead_ws(s) == a,
    decreases s.len(),
{
    if a > 0 {
        assert forall|i: int| 0 <= i < a - 1 implies is_white(#[trigger] s.drop_first()[i]) by {
            assert(s.drop_first()[i] == s[i + 1]);
        }
        if a - 1 < s.drop_first().len() {
            assert(s.drop_first()[a - 1] == s[a]);
        }
        lemma_lead_ws_exact(s.drop_first(), a - 1);
    }
}

pub proof fn lemma_trail_ws_exact(s: Seq<char>, b: int)
    requires
        0 <= b <= s.len(),
        forall|i: int| s.len() - b <= i < s.len() ==> is_white(#[trigger] s[i]),
        b < s.len() ==> !is_white(s[s.len() - b - 1]),
    ensures
        trail_ws(s) == b,
    decreases s.len(),
{
    if b > 0 {
        let d = s.drop_last();
        assert forall|i: int| d.len() - (b - 1) <= i < d.len() implies is_white(#[trigger] d[i]) by {
            assert(d[i] == s[i]);
        }
        if b - 1 < d.len() {
            assert(d[d.len() - (b - 1) - 1] == s[s.len() - b - 1]);
        }
        lemma_trail_ws_exact(d, b - 1);
    }
}


/// Finds where the text of `s` without surrounding white space starts and
/// ends.
pub fn trim_bounds(s: &str) -> (r: (usize, usize))
    ensures
        r.0 <= r.1 <= s@.len(),
        s@.subrange(r.0 as int, r.1 as int) == trimmed(s@),
{
    let n = s.unicode_len();
    let mut a: usize = 0;
    while a < n && white(s.get_char(a))
        invariant
            n == s@.len(),
            a <= n,
            forall|i: int| 0 <= i < a ==> is_white(#[trigger] s@[i]),
        decreases n - a,
    {
        a = a + 1;
    }
    proof {
        lemma_lead_ws_exact(s@, a as int);
    }
    let ghost t = s@.subrange(a as int, n as int);
    let mut e: usize = n;
    while e > a && white(s.get_char(e - 1))
        invariant
            n == s@.len(),
            a <= e <= n,
            t == s@.subrange(a as int, n as int),
            forall|i: int| e <= i < n ==> is_white(#[trigger] s@[i]),
        decreases e,
    {
        e = e - 1;
    }
    proof {
        let b = (n - e) as int;
        assert forall|i: int| t.len() - b <= i < t.len() implies is_white(#[trigger] t[i]) by {
            assert(t[i] == s@[a + i]);
        }
        if b < t.len() {
            assert(t[t.len() - b - 1] == s@[e - 1]);
        }
        lemma_trail_ws_exact(t, b);
        assert(trimmed(s@) =~= s@.subrange(a as int, e as int));
    }
    (a, e)
}

/// The characters of `s` from `from` up to `to`.
pub fn slice_chars(s: &str, from: usize, to: usize) -> (r: String)
    requires
        from <= to <= s@.len(),
    ensures
        r@ == s@.subrange(from as int, to as int),
{
    let mut out = String::new();
    let mut k: usize = from;
    while k < to
        invariant
            from <= k <= to <= s@.len(),
            out@ == s@.subrange(from as int, k as int),
        decreases to - k,
    {
        out.push(s.get_char(k));
        proof {
            assert(out@ =~= s@.subrange(from as int, k + 1));
        }
        k = k + 1;
    }
    out
}

/// `s` without leading and trailing white space.
pub fn trim_text(s: &str) -> (r: String)
    ensures
        r@ == trimmed(s@),
{
    let (a, e) = trim_bounds(s);
    slice_chars(s, a, e)
}

/// `s` with every ASCII upper-case letter lowered.
pub open spec fn lower_seq(s: Seq<char>) -> Seq<char> {
    s.map_values(|c: char| lower_char(c))
}

/// `s` with every ASCII upper-case letter lowered.
pub fn ascii_lowercase(s: &str) -> (r: String)
    ensures
        r@ == lower_seq(s@),
{
    let n = s.unicode_len();
    let mut out = String::new();
    let mut k: usize = 0;
    while k < n
        invariant
            n == s@.len(),
            k <= n,
            out@ == lower_seq(s@.subrange(0, k as int)),
        decreases n - k,
    {
        out.push(ascii_lower(s.get_char(k)));
        proof {
            assert(out@ =~= lower_seq(s@.subrange(0, k + 1)));
        }
        k = k + 1;
    }
    assert(s@.subrange(0, n as int) =~= s@);
    out
}

} // verus!
