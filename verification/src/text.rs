//! Character-level scanners over text, each paired with a spec-level twin
//! that the executable scanner is proved to compute exactly.

use vstd::prelude::*;
use vstd::string::StrSliceExecFns;

verus! {

// ---------------------------------------------------------------------------
// Character classes
// ---------------------------------------------------------------------------

/// Whitespace accepted between tokens of the input grammar.
pub open spec fn is_ws_char(c: char) -> bool {
    c == ' ' || c == '\n' || c == '\t' || c == '\r'
}

/// A character that may start an identifier.
pub open spec fn is_ident_start_char(c: char) -> bool {
    (97 <= c as u32 && c as u32 <= 122)  // 'a'..='z'
    || (65 <= c as u32 && c as u32 <= 90)  // 'A'..='Z'
    || c == '_'
}

/// A character that may continue an identifier.
pub open spec fn is_ident_char(c: char) -> bool {
    is_ident_start_char(c) || (48 <= c as u32 && c as u32 <= 57)  // '0'..='9'
}

/// A whole text that is a valid identifier.
pub open spec fn is_ident_text(s: Seq<char>) -> bool {
    &&& s.len() > 0
    &&& is_ident_start_char(s[0])
    &&& forall|k: int| 0 <= k < s.len() ==> is_ident_char(#[trigger] s[k])
}

pub fn ws_char(c: char) -> (b: bool)
    ensures
        b == is_ws_char(c),
{
    c == ' ' || c == '\n' || c == '\t' || c == '\r'
}

pub fn ident_start_char(c: char) -> (b: bool)
    ensures
        b == is_ident_start_char(c),
{
    let u = c as u32;
    (97 <= u && u <= 122) || (65 <= u && u <= 90) || c == '_'
}

pub fn ident_char(c: char) -> (b: bool)
    ensures
        b == is_ident_char(c),
{
    let u = c as u32;
    ident_start_char(c) || (48 <= u && u <= 57)
}

// ---------------------------------------------------------------------------
// Whitespace
// ---------------------------------------------------------------------------

/// First position at or after `i` holding a non-whitespace character (or the end).
pub open spec fn spec_skip_ws(s: Seq<char>, i: int) -> int
    decreases s.len() - i,
{
    if i < s.len() && is_ws_char(s[i]) {
        spec_skip_ws(s, i + 1)
    } else {
        i
    }
}

/// Bounds of the whitespace scan, for any starting position.
pub proof fn lemma_skip_ws_bounds(s: Seq<char>, i: int)
    ensures
        i <= spec_skip_ws(s, i),
        i <= s.len() ==> spec_skip_ws(s, i) <= s.len(),
    decreases s.len() - i,
{
    if i < s.len() && is_ws_char(s[i]) {
        lemma_skip_ws_bounds(s, i + 1);
    }
}

pub fn skip_ws(s: &str, i: usize) -> (r: usize)
    requires
        i <= s@.len(),
    ensures
        r as int == spec_skip_ws(s@, i as int),
        i <= r <= s@.len(),
{
    let n: usize = s.unicode_len();
    let mut j: usize = i;
    loop
        invariant
            i <= j <= n,
            n == s@.len(),
            spec_skip_ws(s@, i as int) == spec_skip_ws(s@, j as int),
        ensures
            i <= j <= n,
            n == s@.len(),
            spec_skip_ws(s@, i as int) == spec_skip_ws(s@, j as int),
            j == n || !is_ws_char(s@[j as int]),
        decreases n - j,
    {
        if j < n {
            let c = s.get_char(j);
            if ws_char(c) {
                j += 1;
            } else {
                break;
            }
        } else {
            break;
        }
    }
    proof {
        assert(spec_skip_ws(s@, j as int) == j as int);
    }
    j
}

// ---------------------------------------------------------------------------
// Identifiers
// ---------------------------------------------------------------------------

/// End of the run of identifier characters starting at `i`.
pub open spec fn spec_ident_end(s: Seq<char>, i: int) -> int
    decreases s.len() - i,
{
    if i < s.len() && is_ident_char(s[i]) {
        spec_ident_end(s, i + 1)
    } else {
        i
    }
}

pub proof fn lemma_ident_end(s: Seq<char>, i: int)
    requires
        0 <= i <= s.len(),
    ensures
        i <= spec_ident_end(s, i) <= s.len(),
        forall|k: int| i <= k < spec_ident_end(s, i) ==> is_ident_char(#[trigger] s[k]),
        spec_ident_end(s, i) == s.len() || !is_ident_char(s[spec_ident_end(s, i)]),
    decreases s.len() - i,
{
    if i < s.len() && is_ident_char(s[i]) {
        lemma_ident_end(s, i + 1);
    }
}

/// Bounds of the identifier scan, for any starting position.
pub proof fn lemma_ident_end_bounds(s: Seq<char>, i: int)
    ensures
        i <= spec_ident_end(s, i),
        i <= s.len() ==> spec_ident_end(s, i) <= s.len(),
    decreases s.len() - i,
{
    if i < s.len() && is_ident_char(s[i]) {
        lemma_ident_end_bounds(s, i + 1);
    }
}

/// A run that starts with an identifier-start character is a valid identifier.
pub proof fn lemma_ident_text(s: Seq<char>, i: int)
    requires
        0 <= i < s.len(),
        is_ident_start_char(s[i]),
    ensures
        i < spec_ident_end(s, i) <= s.len(),
        is_ident_text(s.subrange(i, spec_ident_end(s, i))),
{
    lemma_ident_end(s, i);
    let e = spec_ident_end(s, i);
    let sub = s.subrange(i, e);
    assert(sub[0] == s[i]);
    assert(forall|k: int| 0 <= k < sub.len() ==> is_ident_char(#[trigger] sub[k])) by {
        assert(forall|k: int| 0 <= k < sub.len() ==> sub[k] == s[i + k]);
    }
}

pub fn ident_end(s: &str, i: usize) -> (r: usize)
    requires
        i <= s@.len(),
    ensures
        r as int == spec_ident_end(s@, i as int),
        i <= r <= s@.len(),
{
    let n: usize = s.unicode_len();
    let mut j: usize = i;
    loop
        invariant
            i <= j <= n,
            n == s@.len(),
            spec_ident_end(s@, i as int) == spec_ident_end(s@, j as int),
        ensures
            i <= j <= n,
            n == s@.len(),
            spec_ident_end(s@, i as int) == spec_ident_end(s@, j as int),
            j == n || !is_ident_char(s@[j as int]),
        decreases n - j,
    {
        if j < n {
            let c = s.get_char(j);
            if ident_char(c) {
                j += 1;
            } else {
                break;
            }
        } else {
            break;
        }
    }
    proof {
        assert(spec_ident_end(s@, j as int) == j as int);
    }
    j
}

/// Whether the whole of `s` is a valid identifier.
pub fn check_ident(s: &str) -> (b: bool)
    ensures
        b == is_ident_text(s@),
{
    let n: usize = s.unicode_len();
    if n == 0 {
        return false;
    }
    if !ident_start_char(s.get_char(0)) {
        return false;
    }
    let mut j: usize = 0;
    while j < n
        invariant
            0 <= j <= n,
            n == s@.len(),
            forall|k: int| 0 <= k < j ==> is_ident_char(#[trigger] s@[k]),
        decreases n - j,
    {
        if !ident_char(s.get_char(j)) {
            return false;
        }
        j += 1;
    }
    true
}

// ---------------------------------------------------------------------------
// String equality
// ---------------------------------------------------------------------------

pub fn str_eq(a: &str, b: &str) -> (r: bool)
    ensures
        r == (a@ == b@),
{
    let na: usize = a.unicode_len();
    let nb: usize = b.unicode_len();
    if na != nb {
        return false;
    }
    let mut j: usize = 0;
    while j < na
        invariant
            0 <= j <= na,
            na == a@.len(),
            na == b@.len(),
            forall|k: int| 0 <= k < j ==> a@[k] == b@[k],
        decreases na - j,
    {
        if a.get_char(j) != b.get_char(j) {
            return false;
        }
        j += 1;
    }
    proof {
        assert(a@ =~= b@);
    }
    true
}

// ---------------------------------------------------------------------------
// Balanced groups
// ---------------------------------------------------------------------------

/// Position of the closing delimiter matching an opening one; the scan starts
/// at `i` with `depth` groups already open.
pub open spec fn spec_group_end(s: Seq<char>, open: char, close: char, i: int, depth: int) -> Option<
    int,
>
    decreases s.len() - i,
{
    if i >= s.len() {
        None
    } else if s[i] == close {
        if depth == 1 {
            Some(i)
        } else {
            spec_group_end(s, open, close, i + 1, depth - 1)
        }
    } else if s[i] == open {
        spec_group_end(s, open, close, i + 1, depth + 1)
    } else {
        spec_group_end(s, open, close, i + 1, depth)
    }
}

pub proof fn lemma_group_end(s: Seq<char>, open: char, close: char, i: int, depth: int)
    ensures
        spec_group_end(s, open, close, i, depth) matches Some(m) ==> i <= m < s.len() && s[m]
            == close,
    decreases s.len() - i,
{
    if i < s.len() {
        lemma_group_end(s, open, close, i + 1, depth - 1);
        lemma_group_end(s, open, close, i + 1, depth + 1);
        lemma_group_end(s, open, close, i + 1, depth);
    }
}

/// Scan for the delimiter matching one already seen: the scan starts at `i`
/// with one group open.
pub fn group_end(s: &str, open: char, close: char, i: usize) -> (r: Option<usize>)
    requires
        i <= s@.len(),
    ensures
        (match r {
            Some(m) => spec_group_end(s@, open, close, i as int, 1) == Some(m as int) && i <= m
                < s@.len() && s@[m as int] == close,
            None => spec_group_end(s@, open, close, i as int, 1) is None,
        }),
{
    let n: usize = s.unicode_len();
    let mut j: usize = i;
    let mut depth: u128 = 1;
    loop
        invariant
            i <= j <= n,
            n == s@.len(),
            1 <= depth,
            depth <= 1 + (j - i),
            spec_group_end(s@, open, close, i as int, 1) == spec_group_end(
                s@,
                open,
                close,
                j as int,
                depth as int,
            ),
        decreases n - j,
    {
        if j >= n {
            return None;
        }
        let c = s.get_char(j);
        if c == close {
            if depth == 1 {
                return Some(j);
            }
            depth = depth - 1;
            j += 1;
        } else if c == open {
            depth = depth + 1;
            j += 1;
        } else {
            j += 1;
        }
    }
}

// ---------------------------------------------------------------------------
// Top-level comma scan
// ---------------------------------------------------------------------------

pub open spec fn is_open_delim(c: char) -> bool {
    c == '(' || c == '[' || c == '{' || c == '<'
}

pub open spec fn is_close_delim(c: char) -> bool {
    c == ')' || c == ']' || c == '}' || c == '>'
}

pub fn open_delim(c: char) -> (b: bool)
    ensures
        b == is_open_delim(c),
{
    c == '(' || c == '[' || c == '{' || c == '<'
}

pub fn close_delim(c: char) -> (b: bool)
    ensures
        b == is_close_delim(c),
{
    c == ')' || c == ']' || c == '}' || c == '>'
}

/// Position of the first comma at delimiter depth zero starting from `i` (or
/// the end of the text), or nothing when the text to the right of `i` is not
/// depth-balanced.
pub open spec fn spec_seg_end(s: Seq<char>, i: int, depth: int) -> Option<int>
    decreases s.len() - i,
{
    if i >= s.len() {
        if depth == 0 {
            Some(i)
        } else {
            None
        }
    } else if depth == 0 && s[i] == ',' {
        Some(i)
    } else if is_open_delim(s[i]) {
        spec_seg_end(s, i + 1, depth + 1)
    } else if is_close_delim(s[i]) {
        if depth == 0 {
            None
        } else {
            spec_seg_end(s, i + 1, depth - 1)
        }
    } else {
        spec_seg_end(s, i + 1, depth)
    }
}

pub proof fn lemma_seg_end(s: Seq<char>, i: int, depth: int)
    requires
        i <= s.len(),
    ensures
        spec_seg_end(s, i, depth) matches Some(m) ==> i <= m <= s.len() && (m < s.len() ==> s[m]
            == ','),
    decreases s.len() - i,
{
    if i < s.len() {
        lemma_seg_end(s, i + 1, depth + 1);
        lemma_seg_end(s, i + 1, depth - 1);
        lemma_seg_end(s, i + 1, depth);
    }
}

pub fn seg_end(s: &str, i: usize) -> (r: Option<usize>)
    requires
        i <= s@.len(),
    ensures
        (match r {
            Some(m) => spec_seg_end(s@, i as int, 0) == Some(m as int) && i <= m <= s@.len() && (m
                < s@.len() ==> s@[m as int] == ','),
            None => spec_seg_end(s@, i as int, 0) is None,
        }),
{
    let n: usize = s.unicode_len();
    let mut j: usize = i;
    let mut depth: u128 = 0;
    loop
        invariant
            i <= j <= n,
            n == s@.len(),
            0 <= depth,
            depth <= (j - i),
            spec_seg_end(s@, i as int, 0) == spec_seg_end(s@, j as int, depth as int),
        decreases n - j,
    {
        if j >= n {
            if depth == 0 {
                return Some(j);
            }
            return None;
        }
        let c = s.get_char(j);
        if depth == 0 && c == ',' {
            return Some(j);
        }
        if open_delim(c) {
            depth = depth + 1;
            j += 1;
        } else if close_delim(c) {
            if depth == 0 {
                return None;
            }
            depth = depth - 1;
            j += 1;
        } else {
            j += 1;
        }
    }
}

// ---------------------------------------------------------------------------
// First occurrence of a character
// ---------------------------------------------------------------------------

pub open spec fn spec_find_char(s: Seq<char>, c: char, i: int) -> Option<int>
    decreases s.len() - i,
{
    if i >= s.len() {
        None
    } else if s[i] == c {
        Some(i)
    } else {
        spec_find_char(s, c, i + 1)
    }
}

pub proof fn lemma_find_char(s: Seq<char>, c: char, i: int)
    ensures
        spec_find_char(s, c, i) matches Some(m) ==> i <= m < s.len() && s[m] == c,
    decreases s.len() - i,
{
    if i < s.len() && s[i] != c {
        lemma_find_char(s, c, i + 1);
    }
}

pub fn find_char(s: &str, c: char, i: usize) -> (r: Option<usize>)
    requires
        i <= s@.len(),
    ensures
        (match r {
            Some(m) => spec_find_char(s@, c, i as int) == Some(m as int) && i <= m < s@.len()
                && s@[m as int] == c,
            None => spec_find_char(s@, c, i as int) is None,
        }),
{
    let n: usize = s.unicode_len();
    let mut j: usize = i;
    loop
        invariant
            i <= j <= n,
            n == s@.len(),
            spec_find_char(s@, c, i as int) == spec_find_char(s@, c, j as int),
        decreases n - j,
    {
        if j >= n {
            return None;
        }
        if s.get_char(j) == c {
            return Some(j);
        }
        j += 1;
    }
}

// ---------------------------------------------------------------------------
// Right trim
// ---------------------------------------------------------------------------

/// End of `s` once trailing whitespace before position `e` is dropped.
pub open spec fn spec_rtrim(s: Seq<char>, e: int) -> int
    decreases e,
{
    if e > 0 && e <= s.len() && is_ws_char(s[e - 1]) {
        spec_rtrim(s, e - 1)
    } else {
        e
    }
}

pub fn rtrim(s: &str, e: usize) -> (r: usize)
    requires
        e <= s@.len(),
    ensures
        r as int == spec_rtrim(s@, e as int),
        r <= e,
{
    let mut j: usize = e;
    loop
        invariant
            0 <= j <= e,
            e <= s@.len(),
            spec_rtrim(s@, e as int) == spec_rtrim(s@, j as int),
        ensures
            0 <= j <= e,
            spec_rtrim(s@, e as int) == spec_rtrim(s@, j as int),
            j == 0 || !is_ws_char(s@[j as int - 1]),
        decreases j,
    {
        if j > 0 {
            let c = s.get_char(j - 1);
            if ws_char(c) {
                j -= 1;
            } else {
                break;
            }
        } else {
            break;
        }
    }
    proof {
        assert(spec_rtrim(s@, j as int) == j as int);
    }
    j
}

// ---------------------------------------------------------------------------
// Properly nested delimiters
// ---------------------------------------------------------------------------

/// The closing delimiter paired with an opening one.
pub open spec fn close_of(c: char) -> char {
    if c == '(' {
        ')'
    } else if c == '[' {
        ']'
    } else if c == '{' {
        '}'
    } else {
        '>'
    }
}

pub fn close_of_exec(c: char) -> (r: char)
    ensures
        r == close_of(c),
{
    if c == '(' {
        ')'
    } else if c == '[' {
        ']'
    } else if c == '{' {
        '}'
    } else {
        '>'
    }
}

/// The delimiters of `s` from `i` on are properly nested, given the stack of
/// closing delimiters still owed.
pub open spec fn spec_wf_delims(s: Seq<char>, i: int, stack: Seq<char>) -> bool
    decreases s.len() - i,
{
    if i >= s.len() {
        stack.len() == 0
    } else if is_open_delim(s[i]) {
        spec_wf_delims(s, i + 1, stack.push(close_of(s[i])))
    } else if is_close_delim(s[i]) {
        stack.len() > 0 && stack.last() == s[i] && spec_wf_delims(s, i + 1, stack.drop_last())
    } else {
        spec_wf_delims(s, i + 1, stack)
    }
}

/// A text that can stand as a type: nonempty, with properly nested delimiters.
pub open spec fn is_type_text(s: Seq<char>) -> bool {
    s.len() > 0 && spec_wf_delims(s, 0, Seq::<char>::empty())
}

/// Whether the whole of `s` can stand as a type.
pub fn check_type_text(s: &str) -> (b: bool)
    ensures
        b == is_type_text(s@),
{
    let n: usize = s.unicode_len();
    if n == 0 {
        return false;
    }
    let mut stack: Vec<char> = Vec::new();
    let mut j: usize = 0;
    loop
        invariant
            0 <= j <= n,
            1 <= n,
            n == s@.len(),
            spec_wf_delims(s@, 0, Seq::<char>::empty()) == spec_wf_delims(s@, j as int, stack@),
        decreases n - j,
    {
        if j >= n {
            proof {
                assert(spec_wf_delims(s@, j as int, stack@) == (stack@.len() == 0));
            }
            return stack.len() == 0;
        }
        let c = s.get_char(j);
        if open_delim(c) {
            stack.push(close_of_exec(c));
            j += 1;
        } else if close_delim(c) {
            if stack.len() == 0 {
                return false;
            }
            let top = stack.pop().unwrap();
            if top != c {
                proof {
                    assert(!spec_wf_delims(s@, j as int, stack@.push(top)));
                }
                return false;
            }
            j += 1;
        } else {
            j += 1;
        }
    }
}

} // verus!
