//! Verified character-level scanning: the hand-written matcher that
//! recognizes the two fixed grammar shapes (directive lines and dependency
//! tokens) and the numeric and boolean value parsers.

use vstd::prelude::*;

verus! {

use crate::model::{
    all_digit_chars, blank, bool_of_token, dec_val, digit_val, is_digit_char, is_unicode_ws,
    last_space_idx, sep_idx_from, space_idx_from, split_spaces, u32_of_dec,
};
use vstd::string::StrSliceExecFns;

/// Whether `c` is Unicode whitespace, the class `str::trim` removes.
pub(crate) fn is_space_char(c: char) -> (b: bool)
    ensures
        b == is_unicode_ws(c),
{
    match c {
        ' ' | '\t' | '\n' | '\u{000B}' | '\u{000C}' | '\r' | '\u{0085}' | '\u{00A0}'
            | '\u{1680}' | '\u{2000}' | '\u{2001}' | '\u{2002}' | '\u{2003}' | '\u{2004}'
            | '\u{2005}' | '\u{2006}' | '\u{2007}' | '\u{2008}' | '\u{2009}' | '\u{200A}'
            | '\u{2028}' | '\u{2029}' | '\u{202F}' | '\u{205F}' | '\u{3000}' => true,
        _ => false,
    }
}

/// Whether `s` trims to the empty string.
pub(crate) fn is_blank_str(s: &str) -> (b: bool)
    ensures
        b == blank(s@),
{
    let n = s.unicode_len();
    let mut i: usize = 0;
    while i < n
        invariant
            n == s@.len(),
            i <= n,
            forall|j: int| 0 <= j < i ==> is_unicode_ws(#[trigger] s@[j]),
        decreases n - i,
    {
        let c = s.get_char(i);
        if !is_space_char(c) {
            assert(!blank(s@)) by {
                assert(!is_unicode_ws(s@[i as int]));
            }
            return false;
        }
        i += 1;
    }
    true
}

/// Whether the views of `a` and `b` are the same character sequence.
pub(crate) fn str_eq(a: &str, b: &str) -> (r: bool)
    ensures
        r == (a@ == b@),
{
    let sa: String = a.to_owned();
    let sb: String = b.to_owned();
    sa == sb
}

/// Position of the first `": "` in `s`, the directive grammar's separator.
pub(crate) fn find_sep(s: &str) -> (r: Option<usize>)
    ensures
        ({
            let k = sep_idx_from(s@, 0);
            match r {
                Some(i) => k == i as int && i + 2 <= s@.len(),
                None => k == -1,
            }
        }),
{
    let n = s.unicode_len();
    let mut i: usize = 0;
    while n - i >= 2
        invariant
            n == s@.len(),
            i <= n,
            sep_idx_from(s@, 0) == sep_idx_from(s@, i as int),
        decreases n - i,
    {
        if s.get_char(i) == ':' && s.get_char(i + 1) == ' ' {
            return Some(i);
        }
        assert(sep_idx_from(s@, i as int) == sep_idx_from(s@, i + 1));
        i += 1;
    }
    assert(sep_idx_from(s@, i as int) == -1);
    None
}

/// Position of the first space in `s`.
pub(crate) fn find_space(s: &str) -> (r: Option<usize>)
    ensures
        ({
            let k = space_idx_from(s@, 0);
            match r {
                Some(i) => k == i as int && i + 1 <= s@.len(),
                None => k == -1,
            }
        }),
{
    let n = s.unicode_len();
    let mut i: usize = 0;
    while i < n
        invariant
            n == s@.len(),
            i <= n,
            space_idx_from(s@, 0) == space_idx_from(s@, i as int),
        decreases n - i,
    {
        if s.get_char(i) == ' ' {
            return Some(i);
        }
        assert(space_idx_from(s@, i as int) == space_idx_from(s@, i + 1));
        i += 1;
    }
    assert(space_idx_from(s@, i as int) == -1);
    None
}

/// Position of the last space in `s`.
pub(crate) fn rfind_space(s: &str) -> (r: Option<usize>)
    ensures
        ({
            let k = last_space_idx(s@);
            match r {
                Some(i) => k == i as int && (i as int) < s@.len(),
                None => k == -1,
            }
        }),
{
    let n = s.unicode_len();
    let mut i: usize = n;
    assert(s@.subrange(0, n as int) =~= s@);
    while i > 0
        invariant
            n == s@.len(),
            i <= n,
            last_space_idx(s@) == last_space_idx(s@.subrange(0, i as int)),
        decreases i,
    {
        let ghost t = s@.subrange(0, i as int);
        assert(t.last() == s@[i - 1]);
        if s.get_char(i - 1) == ' ' {
            assert(last_space_idx(t) == i - 1);
            return Some(i - 1);
        }
        assert(t.drop_last() =~= s@.subrange(0, i - 1));
        assert(last_space_idx(t) == last_space_idx(s@.subrange(0, i - 1)));
        i -= 1;
    }
    assert(last_space_idx(s@.subrange(0, 0)) == -1);
    None
}

/// Reading ever more digits never shrinks the value of a numeral.
proof fn lemma_dec_val_extend_ge(s: Seq<char>, i: int, j: int)
    requires
        0 <= i <= j <= s.len(),
        all_digit_chars(s),
        dec_val(s.subrange(0, i)) >= 0,
    ensures
        dec_val(s.subrange(0, j)) >= dec_val(s.subrange(0, i)),
    decreases j - i,
{
    if j > i {
        lemma_dec_val_extend_ge(s, i, j - 1);
        let t = s.subrange(0, j);
        assert(t.drop_last() =~= s.subrange(0, j - 1));
        assert(t.last() == s[j - 1]);
        let p = dec_val(s.subrange(0, j - 1));
        assert(is_digit_char(s[j - 1]));
        assert(digit_val(s[j - 1]) >= 0);
        assert(p * 10 >= p);
    }
}

/// Parse `s` as a `u32`: a non-empty all-digit numeral whose value fits.
pub(crate) fn parse_u32_str(s: &str) -> (r: Option<u32>)
    ensures
        r == u32_of_dec(s@),
{
    let n = s.unicode_len();
    if n == 0 {
        return None;
    }
    let mut i: usize = 0;
    let mut val: u64 = 0;
    assert(s@.subrange(0, 0) =~= Seq::<char>::empty());
    while i < n
        invariant
            n == s@.len(),
            n > 0,
            i <= n,
            forall|k: int| 0 <= k < i ==> is_digit_char(#[trigger] s@[k]),
            val == dec_val(s@.subrange(0, i as int)),
            val <= u32::MAX,
        decreases n - i,
    {
        let c = s.get_char(i);
        let u = c as u32;
        if u < 48 || u > 57 {
            assert(!all_digit_chars(s@)) by {
                assert(!is_digit_char(s@[i as int]));
            }
            return None;
        }
        let d = (u - 48) as u64;
        let nv: u64 = val * 10 + d;
        proof {
            let t = s@.subrange(0, i + 1);
            assert(t.drop_last() =~= s@.subrange(0, i as int));
            assert(t.last() == s@[i as int]);
            assert(nv == dec_val(t));
        }
        if nv > u32::MAX as u64 {
            proof {
                if all_digit_chars(s@) {
                    lemma_dec_val_extend_ge(s@, i + 1, s@.len() as int);
                    assert(s@.subrange(0, s@.len() as int) =~= s@);
                }
            }
            return None;
        }
        val = nv;
        i += 1;
    }
    assert(s@.subrange(0, n as int) =~= s@);
    Some(val as u32)
}

/// Parse `s` as a boolean: exactly the tokens `true` and `false`.
pub(crate) fn parse_bool_str(s: &str) -> (r: Option<bool>)
    ensures
        r == bool_of_token(s@),
{
    if str_eq(s, "true") {
        Some(true)
    } else if str_eq(s, "false") {
        Some(false)
    } else {
        None
    }
}

/// Split `s` on every single space, in order, as the model's
/// [`split_spaces`] describes.
pub(crate) fn split_tokens(s: &str) -> (v: Vec<String>)
    ensures
        v.deep_view() == split_spaces(s@),
    decreases s@.len(),
{
    let n = s.unicode_len();
    match rfind_space(s) {
        Some(k) => {
            let head = s.substring_char(0, k);
            let mut v = split_tokens(head);
            let tail = s.substring_char(k + 1, n);
            let ghost dv0 = v.deep_view();
            v.push(tail.to_owned());
            proof {
                assert(v.deep_view() =~= dv0.push(tail@));
                assert(dv0.push(tail@) =~= dv0 + seq![s@.subrange(k + 1, s@.len() as int)]);
                assert(v.deep_view() =~= split_spaces(s@));
            }
            v
        },
        None => {
            let mut v: Vec<String> = Vec::new();
            let ghost dv0 = v.deep_view();
            v.push(s.to_owned());
            proof {
                assert(v.deep_view() =~= dv0.push(s@));
                assert(v.deep_view() =~= seq![s@]);
            }
            v
        },
    }
}

/// Position of the first comparator character (`<`, `=`, `>`) in `tok` at
/// or after position `from`.
pub(crate) fn find_cmp_from(tok: &str, from: usize) -> (r: Option<usize>)
    requires
        from <= tok@.len(),
    ensures
        ({
            let k = crate::model::cmp_idx_from(tok@, from as int);
            match r {
                Some(i) => k == i as int && (i as int) < tok@.len() && from <= i,
                None => k == -1,
            }
        }),
{
    let n = tok.unicode_len();
    let mut i: usize = from;
    while i < n
        invariant
            n == tok@.len(),
            from <= i <= n,
            crate::model::cmp_idx_from(tok@, from as int) == crate::model::cmp_idx_from(
                tok@,
                i as int,
            ),
        decreases n - i,
    {
        let c = tok.get_char(i);
        if c == '<' || c == '=' || c == '>' {
            return Some(i);
        }
        assert(crate::model::cmp_idx_from(tok@, i as int) == crate::model::cmp_idx_from(
            tok@,
            i + 1,
        ));
        i += 1;
    }
    assert(crate::model::cmp_idx_from(tok@, i as int) == -1);
    None
}

/// End of the comparator run that starts at `from`: the first position at
/// or after `from` holding no comparator character.
pub(crate) fn cmp_run_end_from(tok: &str, from: usize) -> (r: usize)
    requires
        from <= tok@.len(),
    ensures
        r as int == crate::model::cmp_run_end(tok@, from as int),
        from <= r <= tok@.len(),
{
    let n = tok.unicode_len();
    let mut i: usize = from;
    while i < n
        invariant
            n == tok@.len(),
            from <= i <= n,
            crate::model::cmp_run_end(tok@, from as int) == crate::model::cmp_run_end(
                tok@,
                i as int,
            ),
        decreases n - i,
    {
        let c = tok.get_char(i);
        if !(c == '<' || c == '=' || c == '>') {
            assert(crate::model::cmp_run_end(tok@, i as int) == i);
            return i;
        }
        assert(crate::model::cmp_run_end(tok@, i as int) == crate::model::cmp_run_end(
            tok@,
            i + 1,
        ));
        i += 1;
    }
    assert(crate::model::cmp_run_end(tok@, i as int) == n);
    n
}

} // verus!
