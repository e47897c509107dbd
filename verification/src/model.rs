//! The mathematical model of manifest parsing.
//!
//! Every executable function of the crate is specified against the spec
//! functions in this module: one raw line maps to [`line_step`], a whole
//! stream of lines to [`parse_outcome`].  The functions here operate on
//! `Seq<char>` views of the strings the executable code handles.

use vstd::prelude::*;

verus! {

use crate::LineType;
use crate::error::ErrView;
use vstd::utf8::encode_utf8;

/// Mathematical image of a [`crate::DependsEntry`].
#[verifier::ext_equal]
pub struct DepView {
    pub title: Seq<char>,
    pub version: Option<u32>,
}

/// Mathematical image of a [`crate::AddonManifest`].
#[verifier::ext_equal]
pub struct ManifestView {
    pub title: Seq<char>,
    pub author: Seq<char>,
    pub api_version: u32,
    pub api_version_2: Option<u32>,
    pub addon_version: Option<u32>,
    pub version: Option<Seq<char>>,
    pub depends_on: Seq<DepView>,
    pub optional_depends_on: Seq<DepView>,
    pub is_library: Option<bool>,
    pub errors: Seq<ErrView>,
    pub warnings: Seq<ErrView>,
}

/// The record a parse starts from: blank scalars, version 0, empty lists.
pub open spec fn empty_manifest() -> ManifestView {
    ManifestView {
        title: Seq::empty(),
        author: Seq::empty(),
        api_version: 0u32,
        api_version_2: None,
        addon_version: None,
        version: None,
        depends_on: Seq::empty(),
        optional_depends_on: Seq::empty(),
        is_library: None,
        errors: Seq::empty(),
        warnings: Seq::empty(),
    }
}

pub open spec fn with_error(m: ManifestView, e: ErrView) -> ManifestView {
    ManifestView { errors: m.errors.push(e), ..m }
}

pub open spec fn with_warning(m: ManifestView, e: ErrView) -> ManifestView {
    ManifestView { warnings: m.warnings.push(e), ..m }
}

/// The characters `str::trim` removes: Unicode whitespace.
pub open spec fn is_unicode_ws(c: char) -> bool {
    ||| c == ' '
    ||| c == '\t'
    ||| c == '\n'
    ||| c == '\u{000B}'
    ||| c == '\u{000C}'
    ||| c == '\r'
    ||| c == '\u{0085}'
    ||| c == '\u{00A0}'
    ||| c == '\u{1680}'
    ||| c == '\u{2000}'
    ||| c == '\u{2001}'
    ||| c == '\u{2002}'
    ||| c == '\u{2003}'
    ||| c == '\u{2004}'
    ||| c == '\u{2005}'
    ||| c == '\u{2006}'
    ||| c == '\u{2007}'
    ||| c == '\u{2008}'
    ||| c == '\u{2009}'
    ||| c == '\u{200A}'
    ||| c == '\u{2028}'
    ||| c == '\u{2029}'
    ||| c == '\u{202F}'
    ||| c == '\u{205F}'
    ||| c == '\u{3000}'
}

/// A string that trims to empty: every character is whitespace.
pub open spec fn blank(s: Seq<char>) -> bool {
    forall|i: int| 0 <= i < s.len() ==> is_unicode_ws(#[trigger] s[i])
}

/// Category of one raw line, checked in order: `## ` prefix, then `#` or
/// `;`, then all-whitespace, else free-form data.
pub open spec fn line_kind(s: Seq<char>) -> LineType {
    if s.len() >= 3 && s[0] == '#' && s[1] == '#' && s[2] == ' ' {
        LineType::Directive
    } else if s.len() >= 1 && (s[0] == '#' || s[0] == ';') {
        LineType::Comment
    } else if blank(s) {
        LineType::Blank
    } else {
        LineType::Data
    }
}

/// Index of the first `": "` separator at position `i` or later, or -1.
pub open spec fn sep_idx_from(s: Seq<char>, i: int) -> int
    decreases s.len() - i,
{
    if i < 0 || i + 2 > s.len() {
        -1
    } else if s[i] == ':' && s[i + 1] == ' ' {
        i
    } else {
        sep_idx_from(s, i + 1)
    }
}

/// Index of the first space at position `i` or later, or -1.
pub open spec fn space_idx_from(s: Seq<char>, i: int) -> int
    decreases s.len() - i,
{
    if i < 0 || i >= s.len() {
        -1
    } else if s[i] == ' ' {
        i
    } else {
        space_idx_from(s, i + 1)
    }
}

/// Index of the last space in `s`, or -1.
pub open spec fn last_space_idx(s: Seq<char>) -> int
    decreases s.len(),
{
    if s.len() == 0 {
        -1
    } else if s[s.len() - 1] == ' ' {
        s.len() - 1
    } else {
        last_space_idx(s.drop_last())
    }
}

/// A version-constraint comparator character in a dependency token.
pub open spec fn is_cmp_char(c: char) -> bool {
    c == '<' || c == '=' || c == '>'
}

/// Index of the first comparator character at position `i` or later, or -1.
pub open spec fn cmp_idx_from(s: Seq<char>, i: int) -> int
    decreases s.len() - i,
{
    if i < 0 || i >= s.len() {
        -1
    } else if is_cmp_char(s[i]) {
        i
    } else {
        cmp_idx_from(s, i + 1)
    }
}

/// First index at or after `i` holding no comparator character; ends the
/// comparator run that starts at `i`.
pub open spec fn cmp_run_end(s: Seq<char>, i: int) -> int
    decreases s.len() - i,
{
    if i < 0 || i >= s.len() {
        if i < 0 {
            0
        } else {
            s.len() as int
        }
    } else if is_cmp_char(s[i]) {
        cmp_run_end(s, i + 1)
    } else {
        i
    }
}

pub open spec fn is_digit_char(c: char) -> bool {
    48 <= c as u32 && c as u32 <= 57
}

pub open spec fn digit_val(c: char) -> int {
    c as u32 - 48
}

/// Value of `s` read as a decimal numeral, most significant digit first.
pub open spec fn dec_val(s: Seq<char>) -> int
    decreases s.len(),
{
    if s.len() == 0 {
        0
    } else {
        dec_val(s.drop_last()) * 10 + digit_val(s.last())
    }
}

pub open spec fn all_digit_chars(s: Seq<char>) -> bool {
    forall|i: int| 0 <= i < s.len() ==> is_digit_char(#[trigger] s[i])
}

/// What parsing `s` as a `u32` yields: a non-empty run of decimal digits
/// whose value fits, and nothing else.
pub open spec fn u32_of_dec(s: Seq<char>) -> Option<u32> {
    if s.len() > 0 && all_digit_chars(s) && dec_val(s) <= u32::MAX {
        Some(dec_val(s) as u32)
    } else {
        None
    }
}

/// What parsing `s` as a boolean yields: exactly `true` or `false`.
pub open spec fn bool_of_token(s: Seq<char>) -> Option<bool> {
    if s == "true"@ {
        Some(true)
    } else if s == "false"@ {
        Some(false)
    } else {
        None
    }
}

/// `s` split on every single space, in order; an empty string gives one
/// empty token, as `str::split(' ')` does.
pub open spec fn split_spaces(s: Seq<char>) -> Seq<Seq<char>>
    decreases s.len(),
{
    let k = last_space_idx(s);
    if 0 <= k < s.len() {
        split_spaces(s.subrange(0, k)) + seq![s.subrange(k + 1, s.len() as int)]
    } else {
        seq![s]
    }
}

/// UTF-8 byte length of a character sequence, as `str::len` reports it.
/// Every real `&str` has a byte length that fits in `usize`, so the cast
/// is exact on every view an executable string can have.
pub open spec fn byte_len(s: Seq<char>) -> usize {
    encode_utf8(s).len() as usize
}

/// Entries one dependency token contributes.  The token's title is its
/// longest prefix before the first comparator run that starts past the
/// first character; a token with a comparator run must end in a valid
/// version number, else it is dropped (and a diagnostic recorded, see
/// [`dep_token_diags`]); an empty token is dropped silently.
pub open spec fn dep_token_entries(tok: Seq<char>) -> Seq<DepView> {
    if tok.len() == 0 {
        Seq::empty()
    } else {
        let i = cmp_idx_from(tok, 1);
        if i < 0 {
            seq![DepView { title: tok, version: None }]
        } else {
            let j = cmp_run_end(tok, i);
            match u32_of_dec(tok.subrange(j, tok.len() as int)) {
                Some(n) => seq![DepView { title: tok.subrange(0, i), version: Some(n) }],
                None => Seq::empty(),
            }
        }
    }
}

/// Diagnostics one dependency token contributes: a token with a
/// comparator run whose trailing version does not parse records one
/// `InvalidValue` under the directive's name.
pub open spec fn dep_token_diags(tok: Seq<char>, dir: Seq<char>) -> Seq<ErrView> {
    if tok.len() == 0 {
        Seq::empty()
    } else {
        let i = cmp_idx_from(tok, 1);
        if i < 0 {
            Seq::empty()
        } else {
            let j = cmp_run_end(tok, i);
            match u32_of_dec(tok.subrange(j, tok.len() as int)) {
                Some(n) => Seq::empty(),
                None => seq![ErrView::InvalidValue(dir, tok)],
            }
        }
    }
}

pub open spec fn entries_of_tokens(toks: Seq<Seq<char>>) -> Seq<DepView>
    decreases toks.len(),
{
    if toks.len() == 0 {
        Seq::empty()
    } else {
        entries_of_tokens(toks.drop_last()) + dep_token_entries(toks.last())
    }
}

pub open spec fn diags_of_tokens(toks: Seq<Seq<char>>, dir: Seq<char>) -> Seq<ErrView>
    decreases toks.len(),
{
    if toks.len() == 0 {
        Seq::empty()
    } else {
        diags_of_tokens(toks.drop_last(), dir) + dep_token_diags(toks.last(), dir)
    }
}

/// Ordered dependency entries of one `DependsOn`/`OptionalDependsOn`
/// value: its space-separated tokens, in input order, duplicates kept.
pub open spec fn deps_entries(value: Seq<char>) -> Seq<DepView> {
    entries_of_tokens(split_spaces(value))
}

/// Diagnostics the same value contributes, in token order.
pub open spec fn deps_diags(value: Seq<char>, dir: Seq<char>) -> Seq<ErrView> {
    diags_of_tokens(split_spaces(value), dir)
}

/// Effect of an `APIVersion` value: one value, or two separated by the
/// first space; each part that parses sets its field, each part that does
/// not records an `InvalidValue` and leaves the field alone.
pub open spec fn api_version_step(m: ManifestView, value: Seq<char>) -> ManifestView {
    let i = space_idx_from(value, 0);
    if i < 0 {
        match u32_of_dec(value) {
            Some(n) => ManifestView { api_version: n, ..m },
            None => with_error(m, ErrView::InvalidValue("APIVersion"@, value)),
        }
    } else {
        let left = value.subrange(0, i);
        let right = value.subrange(i + 1, value.len() as int);
        let m1 = match u32_of_dec(left) {
            Some(n) => ManifestView { api_version: n, ..m },
            None => with_error(m, ErrView::InvalidValue("APIVersion"@, left)),
        };
        match u32_of_dec(right) {
            Some(n) => ManifestView { api_version_2: Some(n), ..m1 },
            None => with_error(m1, ErrView::InvalidValue("APIVersion"@, right)),
        }
    }
}

/// Effect of one well-formed directive on the record.  Scalar fields
/// overwrite, list fields append, a failed numeric or boolean parse
/// records an `InvalidValue`, an unrecognized name records an
/// `UnmappedDirective` warning carrying the value.
pub open spec fn dispatch_step(
    m: ManifestView,
    name: Seq<char>,
    value: Seq<char>,
    full_validate: bool,
) -> ManifestView {
    if name == "Title"@ {
        let m1 = if full_validate && value.len() > 64 {
            with_error(m, ErrView::TitleLength(value.len()))
        } else {
            m
        };
        ManifestView { title: value, ..m1 }
    } else if name == "Author"@ {
        ManifestView { author: value, ..m }
    } else if name == "APIVersion"@ {
        api_version_step(m, value)
    } else if name == "AddOnVersion"@ {
        match u32_of_dec(value) {
            Some(n) => ManifestView { addon_version: Some(n), ..m },
            None => with_error(m, ErrView::InvalidValue("AddOnVersion"@, value)),
        }
    } else if name == "Version"@ {
        ManifestView { version: Some(value), ..m }
    } else if name == "DependsOn"@ {
        ManifestView {
            depends_on: m.depends_on + deps_entries(value),
            errors: m.errors + deps_diags(value, name),
            ..m
        }
    } else if name == "OptionalDependsOn"@ {
        ManifestView {
            optional_depends_on: m.optional_depends_on + deps_entries(value),
            errors: m.errors + deps_diags(value, name),
            ..m
        }
    } else if name == "IsLibrary"@ {
        match bool_of_token(value) {
            Some(b) => ManifestView { is_library: Some(b), ..m },
            None => with_error(m, ErrView::InvalidValue("IsLibrary"@, value)),
        }
    } else {
        with_warning(m, ErrView::UnmappedDirective(value))
    }
}

/// Effect of one raw line on the record.  A directive line that lacks the
/// `": "` separator records an `InvalidDirective`; one longer than 301
/// bytes additionally records a `LineLength` under full validation and is
/// dispatched all the same; an overlong comment records a
/// `CommentLength`; blank and data lines do nothing.
pub open spec fn line_step(m: ManifestView, line: Seq<char>, full_validate: bool) -> ManifestView {
    match line_kind(line) {
        LineType::Directive => {
            let rest = line.subrange(3, line.len() as int);
            let si = sep_idx_from(rest, 0);
            if si < 0 {
                with_error(m, ErrView::InvalidDirective(line))
            } else {
                let name = rest.subrange(0, si);
                let value = rest.subrange(si + 2, rest.len() as int);
                let m1 = if full_validate && byte_len(line) > 301 {
                    with_error(m, ErrView::LineLength(byte_len(line) as nat))
                } else {
                    m
                };
                dispatch_step(m1, name, value, full_validate)
            }
        },
        LineType::Comment => {
            if full_validate && line.len() > 1024 {
                with_error(m, ErrView::CommentLength(line.len()))
            } else {
                m
            }
        },
        LineType::Blank => m,
        LineType::Data => m,
    }
}

/// The record after every line of the stream has been applied in order.
pub open spec fn run_lines(
    m0: ManifestView,
    lines: Seq<Seq<char>>,
    full_validate: bool,
) -> ManifestView
    decreases lines.len(),
{
    if lines.len() == 0 {
        m0
    } else {
        line_step(run_lines(m0, lines.drop_last(), full_validate), lines.last(), full_validate)
    }
}

/// The post-pass structural checks, run once at end of stream: a blank
/// title, a blank author, and a version below 100003 each append one
/// error, independently and in that order.
pub open spec fn validated(m: ManifestView) -> ManifestView {
    let m1 = if blank(m.title) {
        with_error(m, ErrView::MissingDirective("Title"@))
    } else {
        m
    };
    let m2 = if blank(m1.author) {
        with_error(m1, ErrView::MissingDirective("Author"@))
    } else {
        m1
    };
    if m2.api_version < 100003 {
        with_error(m2, ErrView::ApiMinimumVersion(m2.api_version))
    } else {
        m2
    }
}

/// The record a whole parse returns: every line applied to the empty
/// record, then the structural checks when full validation is on.
pub open spec fn parse_outcome(lines: Seq<Seq<char>>, full_validate: bool) -> ManifestView {
    let m = run_lines(empty_manifest(), lines, full_validate);
    if full_validate {
        validated(m)
    } else {
        m
    }
}

/// Domain equality of two records: the nine content fields, with the
/// diagnostic lists left out of the comparison.
pub open spec fn domain_same(a: ManifestView, b: ManifestView) -> bool {
    &&& a.title == b.title
    &&& a.author == b.author
    &&& a.api_version == b.api_version
    &&& a.api_version_2 == b.api_version_2
    &&& a.addon_version == b.addon_version
    &&& a.version == b.version
    &&& a.depends_on == b.depends_on
    &&& a.optional_depends_on == b.optional_depends_on
    &&& a.is_library == b.is_library
}

} // verus!
