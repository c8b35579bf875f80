use vstd::prelude::*;
use vstd::string::*;
use crate::text::matches_at;

verus! {

// The extractor scans free-form text (typically an LLM completion wrapping a
// JSON value in prose) for the first candidate of each kind: a brace-balanced
// object, a bracket-balanced array, a quoted string literal, or a bare scalar
// word. The bracket scan is a plain depth counter over characters: delimiter
// characters inside quoted JSON strings count like structural ones. That
// known limitation is part of the contract and is kept deliberately.

/// The first position at or after `i` holding character `c`.
pub open spec fn spec_find_from(s: Seq<char>, c: char, i: int) -> Option<int>
    decreases s.len() - i,
{
    if i >= s.len() {
        None
    } else if s[i] == c {
        Some(i)
    } else {
        spec_find_from(s, c, i + 1)
    }
}

/// Depth-counting delimiter scan from position `i` with current depth
/// `depth`: an `open` raises the depth, a `close` lowers it, and the scan
/// ends just after the `close` that brings the depth to zero. Characters
/// inside quoted strings are not treated specially.
pub open spec fn spec_scan_from(s: Seq<char>, open: char, close: char, i: int, depth: int) -> Option<
    int,
>
    decreases s.len() - i,
{
    if i >= s.len() {
        None
    } else if s[i] == open {
        spec_scan_from(s, open, close, i + 1, depth + 1)
    } else if s[i] == close {
        if depth == 1 {
            Some(i + 1)
        } else {
            spec_scan_from(s, open, close, i + 1, depth - 1)
        }
    } else {
        spec_scan_from(s, open, close, i + 1, depth)
    }
}

/// The first balanced object (`{`..`}`) or array (`[`..`]`) candidate of the
/// text: from the first opening delimiter through the closing delimiter that
/// returns the depth counter to zero; nothing if no opening delimiter exists
/// or the depth never returns to zero.
pub open spec fn spec_json_span(s: Seq<char>, is_object: bool) -> Option<Seq<char>> {
    let open = if is_object { '{' } else { '[' };
    let close = if is_object { '}' } else { ']' };
    match spec_find_from(s, open, 0) {
        None => None,
        Some(st) => match spec_scan_from(s, open, close, st, 0) {
            None => None,
            Some(end) => Some(s.subrange(st, end)),
        },
    }
}

/// Scans the inside of a quoted string literal from position `i` (just after
/// the opening quote): a backslash escapes the following character, and the
/// literal ends at the first unescaped quote. Nothing if the text ends first.
pub open spec fn spec_string_lit_end(s: Seq<char>, i: int) -> Option<int>
    decreases s.len() - i,
{
    if i >= s.len() {
        None
    } else if s[i] == '"' {
        Some(i + 1)
    } else if s[i] == '\\' {
        if i + 1 < s.len() {
            spec_string_lit_end(s, i + 2)
        } else {
            None
        }
    } else {
        spec_string_lit_end(s, i + 1)
    }
}

/// The first complete quoted string literal of the text, quotes included.
pub open spec fn spec_string_candidate(s: Seq<char>) -> Option<Seq<char>> {
    match spec_find_from(s, '"', 0) {
        None => None,
        Some(q) => match spec_string_lit_end(s, q + 1) {
            None => None,
            Some(end) => Some(s.subrange(q, end)),
        },
    }
}

/// An ASCII decimal digit.
pub open spec fn is_ascii_digit(c: char) -> bool {
    48 <= c as u32 && c as u32 <= 57
}

/// A word character: an ASCII letter, digit, or underscore. Word boundaries
/// of the scalar scan are judged against these.
pub open spec fn is_word_char(c: char) -> bool {
    is_ascii_digit(c) || (65 <= c as u32 && c as u32 <= 90) || (97 <= c as u32 && c as u32
        <= 122) || c == '_'
}

/// A word boundary after position `e`: the end of the text or a non-word
/// character.
pub open spec fn spec_boundary(s: Seq<char>, e: int) -> bool {
    e >= s.len() || !is_word_char(s[e])
}

/// The end of the maximal run of digits starting at `i`.
pub open spec fn spec_digits_end(s: Seq<char>, i: int) -> int
    decreases s.len() - i,
{
    if i < s.len() && is_ascii_digit(s[i]) {
        spec_digits_end(s, i + 1)
    } else {
        i
    }
}

/// The end of a fraction part (`.` followed by at least one digit) starting
/// at `i`, if one is present.
pub open spec fn spec_frac_end(s: Seq<char>, i: int) -> Option<int> {
    if i < s.len() && s[i] == '.' {
        let e = spec_digits_end(s, i + 1);
        if e > i + 1 {
            Some(e)
        } else {
            None
        }
    } else {
        None
    }
}

/// The end of an exponent part (`e` or `E`, an optional sign, and at least
/// one digit) starting at `i`, if one is present.
pub open spec fn spec_exp_end(s: Seq<char>, i: int) -> Option<int> {
    if i < s.len() && (s[i] == 'e' || s[i] == 'E') {
        let j = if i + 1 < s.len() && (s[i + 1] == '+' || s[i + 1] == '-') {
            i + 2
        } else {
            i + 1
        };
        let e = spec_digits_end(s, j);
        if e > j {
            Some(e)
        } else {
            None
        }
    } else {
        None
    }
}

/// The end of a number whose digits begin at `q`, honoring the trailing word
/// boundary. The fraction and exponent parts are taken greedily and given
/// back in the order a backtracking pattern would: fraction with exponent,
/// fraction alone, exponent alone, then the bare integer part.
pub open spec fn spec_number_end(s: Seq<char>, q: int) -> Option<int> {
    let ie = spec_digits_end(s, q);
    if ie == q {
        None
    } else {
        match spec_frac_end(s, ie) {
            Some(fe) => {
                let xe = spec_exp_end(s, fe);
                if xe is Some && spec_boundary(s, xe->0) {
                    Some(xe->0)
                } else if spec_boundary(s, fe) {
                    Some(fe)
                } else {
                    // the character at `ie` is `.`, itself a boundary
                    Some(ie)
                }
            },
            None => {
                let xe = spec_exp_end(s, ie);
                if xe is Some && spec_boundary(s, xe->0) {
                    Some(xe->0)
                } else if spec_boundary(s, ie) {
                    Some(ie)
                } else {
                    None
                }
            },
        }
    }
}

/// Whether the whole word `lit` occurs at position `p`: the characters match
/// and both sides sit on a word boundary.
pub open spec fn spec_literal_match_at(s: Seq<char>, p: int, lit: Seq<char>) -> bool {
    &&& p + lit.len() <= s.len()
    &&& s.subrange(p, p + lit.len()) == lit
    &&& (p == 0 || !is_word_char(s[p - 1]))
    &&& spec_boundary(s, p + lit.len())
}

/// The end of the scalar word matched at position `p`, if any: `true`,
/// `false` or `null` as a whole word, or a number. A leading minus sign is
/// part of the match only when a word character precedes it, since the
/// boundary before the match is judged at the sign itself.
pub open spec fn spec_scalar_match_at(s: Seq<char>, p: int) -> Option<int> {
    if spec_literal_match_at(s, p, "true"@) {
        Some(p + "true"@.len())
    } else if spec_literal_match_at(s, p, "false"@) {
        Some(p + "false"@.len())
    } else if spec_literal_match_at(s, p, "null"@) {
        Some(p + "null"@.len())
    } else if p < s.len() && s[p] == '-' {
        if p > 0 && is_word_char(s[p - 1]) {
            spec_number_end(s, p + 1)
        } else {
            None
        }
    } else if p < s.len() && is_ascii_digit(s[p]) && (p == 0 || !is_word_char(s[p - 1])) {
        spec_number_end(s, p)
    } else {
        None
    }
}

/// The leftmost scalar word of the text: the first position with a match,
/// paired with the end of that match.
pub open spec fn spec_scalar_find(s: Seq<char>, p: int) -> Option<(int, int)>
    decreases s.len() - p,
{
    if p >= s.len() {
        None
    } else {
        match spec_scalar_match_at(s, p) {
            Some(e) => Some((p, e)),
            None => spec_scalar_find(s, p + 1),
        }
    }
}

/// The first bare scalar word of the text.
pub open spec fn spec_scalar_candidate(s: Seq<char>) -> Option<Seq<char>> {
    match spec_scalar_find(s, 0) {
        None => None,
        Some(pe) => Some(s.subrange(pe.0, pe.1)),
    }
}

/// `spec_find_from` finds exactly the first occurrence at or after `i`:
/// the found position holds `c` and no earlier position from `i` on does;
/// when nothing is found, no position from `i` on holds `c` at all.
pub proof fn lemma_find_from_first(s: Seq<char>, c: char, i: int)
    ensures
        match spec_find_from(s, c, i) {
            Some(j) => i <= j < s.len() && s[j] == c && (forall|k: int| i <= k < j ==> s[k] != c),
            None => forall|k: int| i <= k < s.len() ==> s[k] != c,
        },
    decreases s.len() - i,
{
    if i >= s.len() {
    } else if s[i] == c {
    } else {
        lemma_find_from_first(s, c, i + 1);
    }
}

/// A successful depth scan ends strictly after where it started, inside the
/// text, and the character just before the end is the closing delimiter.
pub proof fn lemma_scan_from_closes(s: Seq<char>, open: char, close: char, i: int, depth: int)
    requires
        spec_scan_from(s, open, close, i, depth) is Some,
        open != close,
    ensures
        i < spec_scan_from(s, open, close, i, depth)->0 <= s.len(),
        s[spec_scan_from(s, open, close, i, depth)->0 - 1] == close,
    decreases s.len() - i,
{
    if i >= s.len() {
    } else if s[i] == open {
        lemma_scan_from_closes(s, open, close, i + 1, depth + 1);
    } else if s[i] == close {
        if depth != 1 {
            lemma_scan_from_closes(s, open, close, i + 1, depth - 1);
        }
    } else {
        lemma_scan_from_closes(s, open, close, i + 1, depth);
    }
}

/// A found candidate span runs from the first opening delimiter of the text
/// through a closing delimiter, both included: it is nonempty, its first
/// character opens, its last character closes, and no opening delimiter
/// occurs anywhere before it.
pub proof fn lemma_json_span_shape(s: Seq<char>, is_object: bool)
    requires
        spec_json_span(s, is_object) is Some,
    ensures
        ({
            let open = if is_object { '{' } else { '[' };
            let close = if is_object { '}' } else { ']' };
            let span = spec_json_span(s, is_object)->0;
            let st = spec_find_from(s, open, 0)->0;
            &&& span.len() >= 2
            &&& span[0] == open
            &&& span[span.len() - 1] == close
            &&& forall|k: int| 0 <= k < st ==> s[k] != open
        }),
{
    let open = if is_object { '{' } else { '[' };
    let close = if is_object { '}' } else { ']' };
    lemma_find_from_first(s, open, 0);
    let st = spec_find_from(s, open, 0)->0;
    assert(spec_scan_from(s, open, close, st, 0) == spec_scan_from(s, open, close, st + 1, 1));
    lemma_scan_from_closes(s, open, close, st + 1, 1);
}

/// A found string literal ends strictly after where the scan started,
/// inside the text, and the character just before the end is the closing
/// quote.
pub proof fn lemma_string_lit_end_closes(s: Seq<char>, i: int)
    requires
        spec_string_lit_end(s, i) is Some,
    ensures
        i < spec_string_lit_end(s, i)->0 <= s.len(),
        s[spec_string_lit_end(s, i)->0 - 1] == '"',
    decreases s.len() - i,
{
    if i >= s.len() {
    } else if s[i] == '"' {
    } else if s[i] == '\\' {
        if i + 1 < s.len() {
            lemma_string_lit_end_closes(s, i + 2);
        }
    } else {
        lemma_string_lit_end_closes(s, i + 1);
    }
}

/// A found string candidate runs from the first quote of the text through
/// the first closing quote the escape-aware scan reaches: both of its ends
/// are quotes and no quote occurs anywhere before it.
pub proof fn lemma_string_candidate_shape(s: Seq<char>)
    requires
        spec_string_candidate(s) is Some,
    ensures
        ({
            let span = spec_string_candidate(s)->0;
            let q = spec_find_from(s, '"', 0)->0;
            &&& span.len() >= 2
            &&& span[0] == '"'
            &&& span[span.len() - 1] == '"'
            &&& forall|k: int| 0 <= k < q ==> s[k] != '"'
        }),
{
    lemma_find_from_first(s, '"', 0);
    let q = spec_find_from(s, '"', 0)->0;
    lemma_string_lit_end_closes(s, q + 1);
}

/// `spec_scalar_find` finds exactly the leftmost scalar match at or after
/// `p`: the found position matches and no earlier position from `p` on
/// does; when nothing is found, no position from `p` on matches at all.
pub proof fn lemma_scalar_find_first(s: Seq<char>, p: int)
    ensures
        match spec_scalar_find(s, p) {
            Some(pe) => p <= pe.0 < s.len() && spec_scalar_match_at(s, pe.0) == Some(pe.1) && (
            forall|q: int| p <= q < pe.0 ==> spec_scalar_match_at(s, q) is None),
            None => forall|q: int| p <= q < s.len() ==> spec_scalar_match_at(s, q) is None,
        },
    decreases s.len() - p,
{
    if p >= s.len() {
    } else if spec_scalar_match_at(s, p) is Some {
    } else {
        lemma_scalar_find_first(s, p + 1);
    }
}

/// One optional candidate as a sequence of zero or one elements.
pub open spec fn opt_seq(o: Option<Seq<char>>) -> Seq<Seq<char>> {
    match o {
        None => Seq::empty(),
        Some(x) => seq![x],
    }
}

/// The candidate substrings of a flexible extraction, in the priority order
/// in which they are attempted: object, array, quoted string, bare scalar.
pub open spec fn spec_flexible_candidates(s: Seq<char>) -> Seq<Seq<char>> {
    opt_seq(spec_json_span(s, true)) + opt_seq(spec_json_span(s, false)) + opt_seq(
        spec_string_candidate(s),
    ) + opt_seq(spec_scalar_candidate(s))
}

/// First position of `c` in `s`, as `spec_find_from` says.
fn find_char(s: &str, n: usize, c: char) -> (r: Option<usize>)
    requires
        n == s@.len(),
    ensures
        r is Some <==> spec_find_from(s@, c, 0) is Some,
        r is Some ==> spec_find_from(s@, c, 0) == Some(r->0 as int) && r->0 < n && s@[r->0 as int]
            == c,
{
    let mut i: usize = 0;
    while i < n
        invariant
            n == s@.len(),
            i <= n,
            spec_find_from(s@, c, 0) == spec_find_from(s@, c, i as int),
        decreases n - i,
    {
        if s.get_char(i) == c {
            return Some(i);
        }
        i = i + 1;
    }
    None
}

/// Depth-counting scan, as `spec_scan_from` says, starting at an opening
/// delimiter.
fn scan_balance(s: &str, n: usize, open: char, close: char, st: usize) -> (r: Option<usize>)
    requires
        n == s@.len(),
        st < n,
        s@[st as int] == open,
        open != close,
    ensures
        r is Some <==> spec_scan_from(s@, open, close, st as int, 0) is Some,
        r is Some ==> spec_scan_from(s@, open, close, st as int, 0) == Some(r->0 as int) && st
            < r->0 <= n,
{
    let mut i: usize = st;
    let mut depth: usize = 0;
    while i < n
        invariant
            n == s@.len(),
            st <= i <= n,
            open != close,
            s@[st as int] == open,
            i == st ==> depth == 0,
            i > st ==> 1 <= depth,
            depth <= i,
            spec_scan_from(s@, open, close, st as int, 0) == spec_scan_from(
                s@,
                open,
                close,
                i as int,
                depth as int,
            ),
        decreases n - i,
    {
        let c = s.get_char(i);
        if c == open {
            depth = depth + 1;
        } else if c == close {
            if depth == 1 {
                return Some(i + 1);
            }
            depth = depth - 1;
        }
        i = i + 1;
    }
    None
}

/// The first balanced object or array candidate, as `spec_json_span` says:
/// `{`..`}` when an object is wanted, else `[`..`]`. Nothing when no opening
/// delimiter occurs or the depth counter never returns to zero.
pub fn extract_json_span(input: &str, is_object: bool) -> (r: Option<String>)
    ensures
        r is Some <==> spec_json_span(input@, is_object) is Some,
        r is Some ==> r->0@ == spec_json_span(input@, is_object)->0,
{
    let open = if is_object { '{' } else { '[' };
    let close = if is_object { '}' } else { ']' };
    let n = input.unicode_len();
    let st = match find_char(input, n, open) {
        None => {
            return None;
        },
        Some(st) => st,
    };
    match scan_balance(input, n, open, close, st) {
        None => None,
        Some(end) => Some(input.substring_char(st, end).to_owned()),
    }
}

/// Quoted-literal scan, as `spec_string_lit_end` says.
fn string_lit_end(s: &str, n: usize, from: usize) -> (r: Option<usize>)
    requires
        n == s@.len(),
        from <= n,
    ensures
        r is Some <==> spec_string_lit_end(s@, from as int) is Some,
        r is Some ==> spec_string_lit_end(s@, from as int) == Some(r->0 as int) && from < r->0
            <= n,
{
    let mut i: usize = from;
    while i < n
        invariant
            n == s@.len(),
            from <= i <= n,
            spec_string_lit_end(s@, from as int) == spec_string_lit_end(s@, i as int),
        decreases n - i,
    {
        let c = s.get_char(i);
        if c == '"' {
            return Some(i + 1);
        } else if c == '\\' {
            if i + 1 < n {
                i = i + 2;
            } else {
                return None;
            }
        } else {
            i = i + 1;
        }
    }
    None
}

/// The first complete quoted string literal, as `spec_string_candidate`
/// says, quotes included.
pub fn extract_string_candidate(input: &str) -> (r: Option<String>)
    ensures
        r is Some <==> spec_string_candidate(input@) is Some,
        r is Some ==> r->0@ == spec_string_candidate(input@)->0,
{
    let n = input.unicode_len();
    let q = match find_char(input, n, '"') {
        None => {
            return None;
        },
        Some(q) => q,
    };
    match string_lit_end(input, n, q + 1) {
        None => None,
        Some(end) => Some(input.substring_char(q, end).to_owned()),
    }
}

/// Whether `c` is an ASCII digit, as `is_ascii_digit` says.
fn digit_exec(c: char) -> (b: bool)
    ensures
        b == is_ascii_digit(c),
{
    let u = c as u32;
    48 <= u && u <= 57
}

/// Whether `c` is a word character, as `is_word_char` says.
fn word_exec(c: char) -> (b: bool)
    ensures
        b == is_word_char(c),
{
    let u = c as u32;
    (48 <= u && u <= 57) || (65 <= u && u <= 90) || (97 <= u && u <= 122) || c == '_'
}

/// Whether a word boundary sits after position `e`, as `spec_boundary` says.
fn boundary_exec(s: &str, n: usize, e: usize) -> (b: bool)
    requires
        n == s@.len(),
        e <= n,
    ensures
        b == spec_boundary(s@, e as int),
{
    e == n || !word_exec(s.get_char(e))
}

/// Maximal digit run, as `spec_digits_end` says.
fn digits_end(s: &str, n: usize, from: usize) -> (r: usize)
    requires
        n == s@.len(),
        from <= n,
    ensures
        r as int == spec_digits_end(s@, from as int),
        from <= r <= n,
{
    let mut i: usize = from;
    while i < n
        invariant
            n == s@.len(),
            from <= i <= n,
            spec_digits_end(s@, from as int) == spec_digits_end(s@, i as int),
        decreases n - i,
    {
        if !digit_exec(s.get_char(i)) {
            return i;
        }
        i = i + 1;
    }
    i
}

/// Fraction part, as `spec_frac_end` says.
fn frac_end(s: &str, n: usize, from: usize) -> (r: Option<usize>)
    requires
        n == s@.len(),
        from <= n,
    ensures
        r is Some <==> spec_frac_end(s@, from as int) is Some,
        r is Some ==> spec_frac_end(s@, from as int) == Some(r->0 as int) && from < r->0 <= n,
{
    if from < n && s.get_char(from) == '.' {
        let e = digits_end(s, n, from + 1);
        if e > from + 1 {
            Some(e)
        } else {
            None
        }
    } else {
        None
    }
}

/// Exponent part, as `spec_exp_end` says.
fn exp_end(s: &str, n: usize, from: usize) -> (r: Option<usize>)
    requires
        n == s@.len(),
        from <= n,
    ensures
        r is Some <==> spec_exp_end(s@, from as int) is Some,
        r is Some ==> spec_exp_end(s@, from as int) == Some(r->0 as int) && from < r->0 <= n,
{
    if from < n {
        let c = s.get_char(from);
        if c == 'e' || c == 'E' {
            let j = if from + 1 < n {
                let c1 = s.get_char(from + 1);
                if c1 == '+' || c1 == '-' {
                    from + 2
                } else {
                    from + 1
                }
            } else {
                from + 1
            };
            let e = digits_end(s, n, j);
            if e > j {
                return Some(e);
            }
            return None;
        }
        return None;
    }
    None
}

/// Number end, as `spec_number_end` says, for digits beginning at `q`.
fn number_end(s: &str, n: usize, q: usize) -> (r: Option<usize>)
    requires
        n == s@.len(),
        q <= n,
    ensures
        r is Some <==> spec_number_end(s@, q as int) is Some,
        r is Some ==> spec_number_end(s@, q as int) == Some(r->0 as int) && q < r->0 <= n,
{
    let ie = digits_end(s, n, q);
    if ie == q {
        return None;
    }
    match frac_end(s, n, ie) {
        Some(fe) => {
            match exp_end(s, n, fe) {
                Some(xe) => {
                    if boundary_exec(s, n, xe) {
                        return Some(xe);
                    }
                },
                None => {},
            }
            if boundary_exec(s, n, fe) {
                Some(fe)
            } else {
                Some(ie)
            }
        },
        None => {
            match exp_end(s, n, ie) {
                Some(xe) => {
                    if boundary_exec(s, n, xe) {
                        return Some(xe);
                    }
                },
                None => {},
            }
            if boundary_exec(s, n, ie) {
                Some(ie)
            } else {
                None
            }
        },
    }
}

/// Whole-word occurrence of `lit` at `p`, as `spec_literal_match_at` says.
fn literal_match_at(s: &str, n: usize, p: usize, lit: &str, m: usize) -> (b: bool)
    requires
        n == s@.len(),
        m == lit@.len(),
        p <= n,
    ensures
        b == spec_literal_match_at(s@, p as int, lit@),
{
    if !matches_at(s, n, p, lit, m) {
        return false;
    }
    if !(p == 0 || !word_exec(s.get_char(p - 1))) {
        return false;
    }
    boundary_exec(s, n, p + m)
}

/// Scalar word match at position `p`, as `spec_scalar_match_at` says.
fn scalar_match_at(s: &str, n: usize, p: usize) -> (r: Option<usize>)
    requires
        n == s@.len(),
        p < n,
    ensures
        r is Some <==> spec_scalar_match_at(s@, p as int) is Some,
        r is Some ==> spec_scalar_match_at(s@, p as int) == Some(r->0 as int) && p < r->0 <= n,
{
    proof {
        reveal_strlit("true");
        reveal_strlit("false");
        reveal_strlit("null");
    }
    let m_true = "true".unicode_len();
    if literal_match_at(s, n, p, "true", m_true) {
        return Some(p + m_true);
    }
    let m_false = "false".unicode_len();
    if literal_match_at(s, n, p, "false", m_false) {
        return Some(p + m_false);
    }
    let m_null = "null".unicode_len();
    if literal_match_at(s, n, p, "null", m_null) {
        return Some(p + m_null);
    }
    let c = s.get_char(p);
    if c == '-' {
        if p > 0 && word_exec(s.get_char(p - 1)) {
            return number_end(s, n, p + 1);
        }
        return None;
    }
    if digit_exec(c) && (p == 0 || !word_exec(s.get_char(p - 1))) {
        return number_end(s, n, p);
    }
    None
}

/// The first bare scalar word, as `spec_scalar_candidate` says: `true`,
/// `false`, `null`, or a number, matched as a whole word.
pub fn extract_scalar_candidate(input: &str) -> (r: Option<String>)
    ensures
        r is Some <==> spec_scalar_candidate(input@) is Some,
        r is Some ==> r->0@ == spec_scalar_candidate(input@)->0,
{
    let n = input.unicode_len();
    let mut p: usize = 0;
    while p < n
        invariant
            n == input@.len(),
            p <= n,
            spec_scalar_find(input@, 0) == spec_scalar_find(input@, p as int),
        decreases n - p,
    {
        match scalar_match_at(input, n, p) {
            Some(e) => {
                return Some(input.substring_char(p, e).to_owned());
            },
            None => {},
        }
        p = p + 1;
    }
    None
}

/// The candidate substrings of a flexible extraction in priority order, as
/// `spec_flexible_candidates` says.
pub fn flexible_candidates(input: &str) -> (r: Vec<String>)
    ensures
        r.deep_view() == spec_flexible_candidates(input@),
{
    let mut out: Vec<String> = Vec::new();
    match extract_json_span(input, true) {
        Some(sp) => {
            out.push(sp);
        },
        None => {},
    }
    match extract_json_span(input, false) {
        Some(sp) => {
            out.push(sp);
        },
        None => {},
    }
    match extract_string_candidate(input) {
        Some(sp) => {
            out.push(sp);
        },
        None => {},
    }
    match extract_scalar_candidate(input) {
        Some(sp) => {
            out.push(sp);
        },
        None => {},
    }
    proof {
        assert(out.deep_view() =~= spec_flexible_candidates(input@));
    }
    out
}

/// Relies on `serde_json::from_str`: whether the candidate text parses into
/// the caller's target type, and to which value, is the deserializer's
/// decision; a parse failure is an absence, never an error.
#[verifier::external_body]
pub(crate) fn deserialize_fragment<T: serde::de::DeserializeOwned>(s: &str) -> (r: Option<T>) {
    serde_json::from_str(s).ok()
}

} // verus!
