//! Laws of the parser, stated over the model and proved once for all
//! inputs: how scalar and list directives compose across lines, and that
//! domain equality is blind to diagnostics.

use vstd::prelude::*;

verus! {

use crate::LineType;
use crate::model::{
    ManifestView, api_version_step, byte_len, deps_entries, dispatch_step, domain_same,
    line_kind, line_step, sep_idx_from, validated,
};
use vstd::utf8::{encode_scalar, encode_utf8};

/// A character sequence's UTF-8 encoding takes at most four bytes per
/// character.
pub proof fn lemma_encode_utf8_len_le(s: Seq<char>)
    ensures
        encode_utf8(s).len() <= 4 * s.len(),
    decreases s.len(),
{
    if s.len() > 0 {
        assert(encode_scalar(s[0] as u32).len() <= 4);
        lemma_encode_utf8_len_le(s.drop_first());
    }
}

/// A `Title` directive always overwrites the title with its value and
/// touches no warning; when the value stays within 64 characters it adds
/// no error either, whatever validation mode is on.
pub proof fn lemma_title_directive(m: ManifestView, x: Seq<char>, fv: bool)
    ensures
        line_step(m, "## Title: "@ + x, fv).title == x,
        line_step(m, "## Title: "@ + x, fv).warnings == m.warnings,
        x.len() <= 64 ==> line_step(m, "## Title: "@ + x, fv).errors == m.errors,
{
    reveal_strlit("## Title: ");
    reveal_strlit("Title");
    let p = "## Title: "@;
    let line = p + x;
    assert(line[0] == '#' && line[1] == '#' && line[2] == ' ');
    assert(line_kind(line) == LineType::Directive);
    let rest = line.subrange(3, line.len() as int);
    assert(rest.len() == 7 + x.len());
    assert(rest[0] == 'T' && rest[1] == 'i' && rest[2] == 't' && rest[3] == 'l' && rest[4] == 'e'
        && rest[5] == ':' && rest[6] == ' ');
    assert(sep_idx_from(rest, 5) == 5);
    assert(sep_idx_from(rest, 4) == 5);
    assert(sep_idx_from(rest, 3) == 5);
    assert(sep_idx_from(rest, 2) == 5);
    assert(sep_idx_from(rest, 1) == 5);
    assert(sep_idx_from(rest, 0) == 5);
    let name = rest.subrange(0, 5);
    let value = rest.subrange(7, rest.len() as int);
    assert(name =~= "Title"@);
    assert(value =~= x);
    if x.len() <= 64 {
        lemma_encode_utf8_len_le(line);
        assert(byte_len(line) <= 301);
    }
}

/// Scalar directives overwrite: of two `Title` lines, the later one wins,
/// whatever the earlier value was.
pub proof fn lemma_title_last_wins(m: ManifestView, x1: Seq<char>, x2: Seq<char>, fv: bool)
    ensures
        line_step(line_step(m, "## Title: "@ + x1, fv), "## Title: "@ + x2, fv).title == x2,
{
    lemma_title_directive(line_step(m, "## Title: "@ + x1, fv), x2, fv);
}

/// An `Author` directive always overwrites the author with its value and
/// touches no warning; it carries no length check of its own, so within
/// 64 characters it adds no error in any validation mode.
pub proof fn lemma_author_directive(m: ManifestView, x: Seq<char>, fv: bool)
    ensures
        line_step(m, "## Author: "@ + x, fv).author == x,
        line_step(m, "## Author: "@ + x, fv).warnings == m.warnings,
        x.len() <= 64 ==> line_step(m, "## Author: "@ + x, fv).errors == m.errors,
{
    reveal_strlit("## Author: ");
    reveal_strlit("Author");
    reveal_strlit("Title");
    let p = "## Author: "@;
    let line = p + x;
    assert(line[0] == '#' && line[1] == '#' && line[2] == ' ');
    assert(line_kind(line) == LineType::Directive);
    let rest = line.subrange(3, line.len() as int);
    assert(rest.len() == 8 + x.len());
    assert(rest[0] == 'A' && rest[1] == 'u' && rest[2] == 't' && rest[3] == 'h' && rest[4] == 'o'
        && rest[5] == 'r' && rest[6] == ':' && rest[7] == ' ');
    assert(sep_idx_from(rest, 6) == 6);
    assert(sep_idx_from(rest, 5) == 6);
    assert(sep_idx_from(rest, 4) == 6);
    assert(sep_idx_from(rest, 3) == 6);
    assert(sep_idx_from(rest, 2) == 6);
    assert(sep_idx_from(rest, 1) == 6);
    assert(sep_idx_from(rest, 0) == 6);
    let name = rest.subrange(0, 6);
    let value = rest.subrange(8, rest.len() as int);
    assert(name =~= "Author"@);
    assert(value =~= x);
    assert(name != "Title"@);
    if x.len() <= 64 {
        lemma_encode_utf8_len_le(line);
        assert(byte_len(line) <= 301);
    }
}

/// The other overwrite scalar behaves the same way: of two `Author`
/// lines, the later one wins.
pub proof fn lemma_author_last_wins(m: ManifestView, x1: Seq<char>, x2: Seq<char>, fv: bool)
    ensures
        line_step(line_step(m, "## Author: "@ + x1, fv), "## Author: "@ + x2, fv).author == x2,
{
    lemma_author_directive(line_step(m, "## Author: "@ + x1, fv), x2, fv);
}

/// A `DependsOn` directive appends its value's entries to the required
/// dependency list, in order, and leaves the optional list and the
/// warnings alone.
pub proof fn lemma_depends_directive(m: ManifestView, a: Seq<char>, fv: bool)
    ensures
        line_step(m, "## DependsOn: "@ + a, fv).depends_on == m.depends_on + deps_entries(a),
        line_step(m, "## DependsOn: "@ + a, fv).optional_depends_on == m.optional_depends_on,
        line_step(m, "## DependsOn: "@ + a, fv).warnings == m.warnings,
{
    reveal_strlit("## DependsOn: ");
    reveal_strlit("DependsOn");
    reveal_strlit("Title");
    reveal_strlit("Author");
    reveal_strlit("APIVersion");
    reveal_strlit("AddOnVersion");
    reveal_strlit("Version");
    let p = "## DependsOn: "@;
    let line = p + a;
    assert(line[0] == '#' && line[1] == '#' && line[2] == ' ');
    assert(line_kind(line) == LineType::Directive);
    let rest = line.subrange(3, line.len() as int);
    assert(rest.len() == 11 + a.len());
    assert(rest[0] == 'D' && rest[1] == 'e' && rest[2] == 'p' && rest[3] == 'e' && rest[4] == 'n'
        && rest[5] == 'd' && rest[6] == 's' && rest[7] == 'O' && rest[8] == 'n' && rest[9] == ':'
        && rest[10] == ' ');
    assert(sep_idx_from(rest, 9) == 9);
    assert(sep_idx_from(rest, 8) == 9);
    assert(sep_idx_from(rest, 7) == 9);
    assert(sep_idx_from(rest, 6) == 9);
    assert(sep_idx_from(rest, 5) == 9);
    assert(sep_idx_from(rest, 4) == 9);
    assert(sep_idx_from(rest, 3) == 9);
    assert(sep_idx_from(rest, 2) == 9);
    assert(sep_idx_from(rest, 1) == 9);
    assert(sep_idx_from(rest, 0) == 9);
    let name = rest.subrange(0, 9);
    let value = rest.subrange(11, rest.len() as int);
    assert(name =~= "DependsOn"@);
    assert(value =~= a);
    assert(name != "Title"@ && name != "Author"@ && name != "APIVersion"@ && name
        != "AddOnVersion"@ && name != "Version"@);
}

/// List directives accumulate: two `DependsOn` lines append both values'
/// entries, in line order, merged with nothing and deduplicated never.
pub proof fn lemma_depends_on_accumulates(
    m: ManifestView,
    a: Seq<char>,
    b: Seq<char>,
    fv: bool,
)
    ensures
        line_step(line_step(m, "## DependsOn: "@ + a, fv), "## DependsOn: "@ + b, fv).depends_on
            == m.depends_on + deps_entries(a) + deps_entries(b),
{
    lemma_depends_directive(m, a, fv);
    lemma_depends_directive(line_step(m, "## DependsOn: "@ + a, fv), b, fv);
}

proof fn lemma_api_version_step_append_only(m: ManifestView, value: Seq<char>)
    ensures
        m.errors.is_prefix_of(api_version_step(m, value).errors),
        api_version_step(m, value).warnings == m.warnings,
{
}

proof fn lemma_dispatch_step_append_only(
    m: ManifestView,
    name: Seq<char>,
    value: Seq<char>,
    fv: bool,
)
    ensures
        m.errors.is_prefix_of(dispatch_step(m, name, value, fv).errors),
        m.warnings.is_prefix_of(dispatch_step(m, name, value, fv).warnings),
{
    if name == "APIVersion"@ {
        lemma_api_version_step_append_only(m, value);
    }
}

/// Diagnostics are append-only: applying a line never removes or reorders
/// what is already recorded; it can only add to the end.
pub proof fn lemma_diagnostics_append_only(m: ManifestView, line: Seq<char>, fv: bool)
    ensures
        m.errors.is_prefix_of(line_step(m, line, fv).errors),
        m.warnings.is_prefix_of(line_step(m, line, fv).warnings),
{
    if line_kind(line) == LineType::Directive {
        let rest = line.subrange(3, line.len() as int);
        let si = sep_idx_from(rest, 0);
        if si >= 0 {
            let name = rest.subrange(0, si);
            let value = rest.subrange(si + 2, rest.len() as int);
            let m1 = if fv && byte_len(line) > 301 {
                crate::model::with_error(m, crate::error::ErrView::LineLength(
                    byte_len(line) as nat,
                ))
            } else {
                m
            };
            lemma_dispatch_step_append_only(m1, name, value, fv);
        }
    }
}

/// The post-pass checks are append-only too: they touch nothing but the
/// end of the error list.
pub proof fn lemma_validated_append_only(m: ManifestView)
    ensures
        m.errors.is_prefix_of(validated(m).errors),
        validated(m).warnings == m.warnings,
{
}

/// Domain equality compares only the nine content fields: replacing the
/// diagnostic lists of either record, by anything at all, never changes
/// its outcome.
pub proof fn lemma_domain_eq_ignores_diagnostics(
    a: ManifestView,
    b: ManifestView,
    e1: Seq<crate::error::ErrView>,
    w1: Seq<crate::error::ErrView>,
    e2: Seq<crate::error::ErrView>,
    w2: Seq<crate::error::ErrView>,
)
    ensures
        domain_same(
            (ManifestView { errors: e1, warnings: w1, ..a }),
            (ManifestView { errors: e2, warnings: w2, ..b }),
        ) == domain_same(a, b),
{
}

} // verus!

