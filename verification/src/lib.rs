//! A parser and validator for line-oriented addon manifest files.
//!
//! A manifest is a sequence of text lines.  A line `## Name: Value` is a
//! directive carrying one metadata field; lines opening with `#` or `;`
//! are comments; blank and free-form data lines are ignored.  The parser
//! folds the lines, in order, into one [`AddonManifest`] record and never
//! fails part-way: every anomaly is recorded in the record's `errors` or
//! `warnings` list.  Each step is specified against the spec functions of
//! [`model`], with [`model::line_step`] giving the meaning of one line and
//! [`model::parse_outcome`] the meaning of a whole parse.

use vstd::prelude::*;

pub mod error;
pub mod laws;
pub mod model;
mod scan;

pub use error::ManifestError;

verus! {

use crate::model::{
    DepView, ManifestView, dep_token_diags, dep_token_entries, deps_diags, deps_entries,
    diags_of_tokens, dispatch_step, domain_same, empty_manifest, entries_of_tokens, line_kind,
    line_step, parse_outcome, run_lines, split_spaces, validated,
};
use vstd::string::StrSliceExecFns;

/// Category of one raw manifest line.
#[derive(Debug, PartialEq, Eq, Structural)]
pub enum LineType {
    /// Opens with `## ` and carries one metadata field.
    Directive,
    /// Opens with `#` (but not `## `) or `;`.
    Comment,
    /// Trims to the empty string.
    Blank,
    /// Anything else; ignored, manifests may hold free-form trailing text.
    Data,
}

impl LineType {
    /// Classify one raw line, checking the rules in order: `## ` prefix,
    /// then `#` or `;`, then all-whitespace, else data.
    pub fn from_line(line: &str) -> (t: LineType)
        ensures
            t == line_kind(line@),
    {
        let n = line.unicode_len();
        if n >= 3 && line.get_char(0) == '#' && line.get_char(1) == '#' && line.get_char(2) == ' '
        {
            LineType::Directive
        } else if n >= 1 && (line.get_char(0) == '#' || line.get_char(0) == ';') {
            LineType::Comment
        } else if scan::is_blank_str(line) {
            LineType::Blank
        } else {
            LineType::Data
        }
    }
}

/// One dependency of an addon: a required title and an optional version
/// constraint; `None` means any version is accepted.
#[derive(Debug, PartialEq, Eq)]
pub struct DependsEntry {
    /// Title of the addon or library depended on.
    pub title: String,
    /// Optional version bound extracted from the token's comparator run.
    pub version: Option<u32>,
}

impl View for DependsEntry {
    type V = DepView;

    open spec fn view(&self) -> DepView {
        DepView { title: self.title@, version: self.version }
    }
}

impl DeepView for DependsEntry {
    type V = DepView;

    open spec fn deep_view(&self) -> DepView {
        self.view()
    }
}

/// The record one parse produces: the manifest's identity and version
/// fields, its dependency lists, and the diagnostics gathered on the way.
#[derive(Debug)]
pub struct AddonManifest {
    /// Addon title for human display; last `Title` directive wins.
    pub title: String,
    /// Author name; last `Author` directive wins.
    pub author: String,
    /// Supported API version; 0 until an `APIVersion` directive sets it.
    pub api_version: u32,
    /// Second supported API version, when two were given on one line.
    pub api_version_2: Option<u32>,
    /// Release counter from `AddOnVersion`.
    pub addon_version: Option<u32>,
    /// Free-form display version from `Version`; not numerically bound.
    pub version: Option<String>,
    /// Required dependencies, appended across repeated `DependsOn` lines.
    pub depends_on: Vec<DependsEntry>,
    /// Optional dependencies, appended across `OptionalDependsOn` lines.
    pub optional_depends_on: Vec<DependsEntry>,
    /// Whether the addon is a library, from `IsLibrary`.
    pub is_library: Option<bool>,
    /// Errors recorded during the parse and the post-pass checks.
    pub errors: Vec<ManifestError>,
    /// Warnings recorded during the parse.
    pub warnings: Vec<ManifestError>,
}

impl View for AddonManifest {
    type V = ManifestView;

    open spec fn view(&self) -> ManifestView {
        ManifestView {
            title: self.title@,
            author: self.author@,
            api_version: self.api_version,
            api_version_2: self.api_version_2,
            addon_version: self.addon_version,
            version: self.version.deep_view(),
            depends_on: self.depends_on.deep_view(),
            optional_depends_on: self.optional_depends_on.deep_view(),
            is_library: self.is_library,
            errors: self.errors.deep_view(),
            warnings: self.warnings.deep_view(),
        }
    }
}

impl AddonManifest {
    /// The explicit zero-value record a parse starts from: blank scalars,
    /// API version 0, empty lists, no diagnostics.
    pub fn new() -> (r: AddonManifest)
        ensures
            r@ == empty_manifest(),
    {
        let r = AddonManifest {
            title: String::new(),
            author: String::new(),
            api_version: 0,
            api_version_2: None,
            addon_version: None,
            version: None,
            depends_on: Vec::new(),
            optional_depends_on: Vec::new(),
            is_library: None,
            errors: Vec::new(),
            warnings: Vec::new(),
        };
        proof {
            assert(r@ =~= empty_manifest());
        }
        r
    }

    /// Domain equality: compares the nine content fields and deliberately
    /// leaves `errors` and `warnings` out, so that diagnostic state never
    /// enters a behavioural comparison.
    pub fn domain_eq(&self, other: &AddonManifest) -> (r: bool)
        ensures
            r == domain_same(self@, other@),
    {
        self.title == other.title && self.author == other.author && self.api_version
            == other.api_version && opt_u32_eq(&self.api_version_2, &other.api_version_2)
            && opt_u32_eq(&self.addon_version, &other.addon_version) && opt_string_eq(
            &self.version,
            &other.version,
        ) && deps_eq(&self.depends_on, &other.depends_on) && deps_eq(
            &self.optional_depends_on,
            &other.optional_depends_on,
        ) && opt_bool_eq(&self.is_library, &other.is_library)
    }
}

/// The parser: classifies each line, matches the directive and dependency
/// grammars with the hand-written scanner, and folds the effects into an
/// [`AddonManifest`].
#[derive(Debug)]
pub struct AddonManifestParser {}

impl Default for AddonManifestParser {
    fn default() -> (r: AddonManifestParser)
        ensures
            r == (AddonManifestParser {  }),
    {
        AddonManifestParser {  }
    }
}

/// Append one dependency token's contribution: an entry for a well-formed
/// token, an `InvalidValue` diagnostic for one whose trailing version does
/// not parse, nothing for an empty token.
fn parse_dep_token(
    tok: &str,
    directive: &str,
    deps: &mut Vec<DependsEntry>,
    errs: &mut Vec<ManifestError>,
)
    ensures
        final(deps).deep_view() == old(deps).deep_view() + dep_token_entries(tok@),
        final(errs).deep_view() == old(errs).deep_view() + dep_token_diags(tok@, directive@),
{
    let ghost d0 = deps.deep_view();
    let ghost e0 = errs.deep_view();
    let n = tok.unicode_len();
    if n == 0 {
        proof {
            assert(d0 + dep_token_entries(tok@) =~= d0);
            assert(e0 + dep_token_diags(tok@, directive@) =~= e0);
        }
        return ;
    }
    match scan::find_cmp_from(tok, 1) {
        None => {
            deps.push(DependsEntry { title: tok.to_owned(), version: None });
            proof {
                assert(deps.deep_view() =~= d0.push(DepView { title: tok@, version: None }));
                assert(deps.deep_view() =~= d0 + dep_token_entries(tok@));
                assert(errs.deep_view() =~= e0 + dep_token_diags(tok@, directive@));
            }
        },
        Some(i) => {
            let j = scan::cmp_run_end_from(tok, i);
            let ver = tok.substring_char(j, n);
            match scan::parse_u32_str(ver) {
                Some(vnum) => {
                    let name = tok.substring_char(0, i);
                    deps.push(DependsEntry { title: name.to_owned(), version: Some(vnum) });
                    proof {
                        assert(deps.deep_view() =~= d0.push(
                            DepView { title: tok@.subrange(0, i as int), version: Some(vnum) },
                        ));
                        assert(deps.deep_view() =~= d0 + dep_token_entries(tok@));
                        assert(errs.deep_view() =~= e0 + dep_token_diags(tok@, directive@));
                    }
                },
                None => {
                    errs.push(ManifestError::InvalidValue(directive.to_owned(), tok.to_owned()));
                    proof {
                        assert(errs.deep_view() =~= e0.push(
                            crate::error::ErrView::InvalidValue(directive@, tok@),
                        ));
                        assert(errs.deep_view() =~= e0 + dep_token_diags(tok@, directive@));
                        assert(deps.deep_view() =~= d0 + dep_token_entries(tok@));
                    }
                },
            }
        },
    }
}

impl AddonManifestParser {
    /// Parse one `DependsOn`/`OptionalDependsOn` value into its ordered
    /// dependency entries and the diagnostics its malformed version
    /// numbers contribute; `directive` names the field the diagnostics
    /// are recorded under.
    pub fn parse_depends(&self, directive: &str, value: &str) -> (r: (
        Vec<DependsEntry>,
        Vec<ManifestError>,
    ))
        ensures
            r.0.deep_view() == deps_entries(value@),
            r.1.deep_view() == deps_diags(value@, directive@),
    {
        let toks = scan::split_tokens(value);
        let mut deps: Vec<DependsEntry> = Vec::new();
        let mut errs: Vec<ManifestError> = Vec::new();
        let n = toks.len();
        let mut i: usize = 0;
        proof {
            assert(toks.deep_view().subrange(0, 0) =~= Seq::<Seq<char>>::empty());
        }
        while i < n
            invariant
                n == toks.len(),
                i <= n,
                toks.deep_view() == split_spaces(value@),
                deps.deep_view() == entries_of_tokens(toks.deep_view().subrange(0, i as int)),
                errs.deep_view() == diags_of_tokens(
                    toks.deep_view().subrange(0, i as int),
                    directive@,
                ),
            decreases n - i,
        {
            proof {
                assert(toks[i as int].deep_view() == toks.deep_view()[i as int]);
            }
            parse_dep_token(toks[i].as_str(), directive, &mut deps, &mut errs);
            proof {
                let tv = toks.deep_view();
                let t = tv.subrange(0, i + 1);
                assert(t.drop_last() =~= tv.subrange(0, i as int));
                assert(t.last() == tv[i as int]);
            }
            i += 1;
        }
        proof {
            assert(toks.deep_view().subrange(0, n as int) =~= toks.deep_view());
        }
        (deps, errs)
    }

    /// Apply one well-formed directive to the record, as the model's
    /// [`dispatch_step`] describes: scalars overwrite, lists append,
    /// failed numeric or boolean values record an `InvalidValue`, and an
    /// unrecognized name records a warning carrying the value.
    fn dispatch(&self, name: &str, value: &str, result: &mut AddonManifest, full_validate: bool)
        ensures
            final(result)@ == dispatch_step(old(result)@, name@, value@, full_validate),
    {
        if scan::str_eq(name, "Title") {
            if full_validate {
                let c = value.unicode_len();
                if c > 64 {
                    result.errors.push(ManifestError::TitleLength(c));
                }
            }
            result.title = value.to_owned();
            proof {
                assert(final(result)@ =~= dispatch_step(old(result)@, name@, value@,
                full_validate));
            }
        } else if scan::str_eq(name, "Author") {
            result.author = value.to_owned();
            proof {
                assert(final(result)@ =~= dispatch_step(old(result)@, name@, value@,
                full_validate));
            }
        } else if scan::str_eq(name, "APIVersion") {
            match scan::find_space(value) {
                None => {
                    match scan::parse_u32_str(value) {
                        Some(nv) => {
                            result.api_version = nv;
                        },
                        None => {
                            result.errors.push(
                                ManifestError::InvalidValue(
                                    "APIVersion".to_owned(),
                                    value.to_owned(),
                                ),
                            );
                        },
                    }
                },
                Some(sp) => {
                    let vn = value.unicode_len();
                    let left = value.substring_char(0, sp);
                    let right = value.substring_char(sp + 1, vn);
                    match scan::parse_u32_str(left) {
                        Some(nv) => {
                            result.api_version = nv;
                        },
                        None => {
                            result.errors.push(
                                ManifestError::InvalidValue(
                                    "APIVersion".to_owned(),
                                    left.to_owned(),
                                ),
                            );
                        },
                    }
                    match scan::parse_u32_str(right) {
                        Some(nv) => {
                            result.api_version_2 = Some(nv);
                        },
                        None => {
                            result.errors.push(
                                ManifestError::InvalidValue(
                                    "APIVersion".to_owned(),
                                    right.to_owned(),
                                ),
                            );
                        },
                    }
                },
            }
            proof {
                assert(final(result)@ =~= dispatch_step(old(result)@, name@, value@,
                full_validate));
            }
        } else if scan::str_eq(name, "AddOnVersion") {
            match scan::parse_u32_str(value) {
                Some(nv) => {
                    result.addon_version = Some(nv);
                },
                None => {
                    result.errors.push(
                        ManifestError::InvalidValue("AddOnVersion".to_owned(), value.to_owned()),
                    );
                },
            }
            proof {
                assert(final(result)@ =~= dispatch_step(old(result)@, name@, value@,
                full_validate));
            }
        } else if scan::str_eq(name, "Version") {
            result.version = Some(value.to_owned());
            proof {
                assert(final(result)@ =~= dispatch_step(old(result)@, name@, value@,
                full_validate));
            }
        } else if scan::str_eq(name, "DependsOn") {
            let (mut d, mut e) = self.parse_depends(name, value);
            let ghost d0 = result.depends_on.deep_view();
            result.depends_on.append(&mut d);
            let ghost e0 = result.errors.deep_view();
            result.errors.append(&mut e);
            proof {
                assert(result.depends_on.deep_view() =~= d0 + deps_entries(value@));
                assert(result.errors.deep_view() =~= e0 + deps_diags(value@, name@));
                assert(final(result)@ =~= dispatch_step(old(result)@, name@, value@,
                full_validate));
            }
        } else if scan::str_eq(name, "OptionalDependsOn") {
            let (mut d, mut e) = self.parse_depends(name, value);
            let ghost d0 = result.optional_depends_on.deep_view();
            result.optional_depends_on.append(&mut d);
            let ghost e0 = result.errors.deep_view();
            result.errors.append(&mut e);
            proof {
                assert(result.optional_depends_on.deep_view() =~= d0 + deps_entries(value@));
                assert(result.errors.deep_view() =~= e0 + deps_diags(value@, name@));
                assert(final(result)@ =~= dispatch_step(old(result)@, name@, value@,
                full_validate));
            }
        } else if scan::str_eq(name, "IsLibrary") {
            match scan::parse_bool_str(value) {
                Some(b) => {
                    result.is_library = Some(b);
                },
                None => {
                    result.errors.push(
                        ManifestError::InvalidValue("IsLibrary".to_owned(), value.to_owned()),
                    );
                },
            }
            proof {
                assert(final(result)@ =~= dispatch_step(old(result)@, name@, value@,
                full_validate));
            }
        } else {
            result.warnings.push(ManifestError::UnmappedDirective(value.to_owned()));
            proof {
                assert(final(result)@ =~= dispatch_step(old(result)@, name@, value@,
                full_validate));
            }
        }
    }

    /// Apply one raw line to the record, as the model's [`line_step`]
    /// describes.  Never signals failure: anomalies are recorded in the
    /// record's diagnostic lists.
    pub fn parse_line(&self, line: &str, result: &mut AddonManifest, full_validate: bool)
        ensures
            final(result)@ == line_step(old(result)@, line@, full_validate),
    {
        match LineType::from_line(line) {
            LineType::Directive => {
                let n = line.unicode_len();
                let rest = line.substring_char(3, n);
                match scan::find_sep(rest) {
                    None => {
                        result.errors.push(ManifestError::InvalidDirective(line.to_owned()));
                        proof {
                            assert(final(result)@ =~= line_step(old(result)@, line@,
                            full_validate));
                        }
                    },
                    Some(si) => {
                        let rn = rest.unicode_len();
                        let name = rest.substring_char(0, si);
                        let value = rest.substring_char(si + 2, rn);
                        if full_validate && line.len() > 301 {
                            result.errors.push(ManifestError::LineLength(line.len()));
                        }
                        self.dispatch(name, value, result, full_validate);
                        proof {
                            assert(final(result)@ =~= line_step(old(result)@, line@,
                            full_validate));
                        }
                    },
                }
            },
            LineType::Comment => {
                if full_validate {
                    let c = line.unicode_len();
                    if c > 1024 {
                        result.errors.push(ManifestError::CommentLength(c));
                    }
                }
                proof {
                    assert(final(result)@ =~= line_step(old(result)@, line@, full_validate));
                }
            },
            LineType::Blank => {
                proof {
                    assert(final(result)@ =~= line_step(old(result)@, line@, full_validate));
                }
            },
            LineType::Data => {
                proof {
                    assert(final(result)@ =~= line_step(old(result)@, line@, full_validate));
                }
            },
        }
    }

    /// The post-pass structural checks, run once at end of stream under
    /// full validation: a blank title, a blank author and an API version
    /// below 100003 each append one error, independently and in order.
    pub fn validate(&self, result: &mut AddonManifest)
        ensures
            final(result)@ == validated(old(result)@),
    {
        if scan::is_blank_str(result.title.as_str()) {
            result.errors.push(ManifestError::MissingDirective("Title".to_owned()));
        }
        if scan::is_blank_str(result.author.as_str()) {
            result.errors.push(ManifestError::MissingDirective("Author".to_owned()));
        }
        if result.api_version < 100003 {
            result.errors.push(ManifestError::ApiMinimumVersion(result.api_version));
        }
        proof {
            assert(final(result)@ =~= validated(old(result)@));
        }
    }

    /// Parse a whole stream of lines: fold every line into the empty
    /// record in order, then run the structural checks when full
    /// validation is requested, and return the finished record.
    pub fn parse_lines(&self, lines: &Vec<String>, full_validate: bool) -> (r: AddonManifest)
        ensures
            r@ == parse_outcome(lines.deep_view(), full_validate),
    {
        let mut result = AddonManifest::new();
        let n = lines.len();
        let mut i: usize = 0;
        proof {
            assert(lines.deep_view().subrange(0, 0) =~= Seq::<Seq<char>>::empty());
        }
        while i < n
            invariant
                n == lines.len(),
                i <= n,
                result@ == run_lines(
                    empty_manifest(),
                    lines.deep_view().subrange(0, i as int),
                    full_validate,
                ),
            decreases n - i,
        {
            proof {
                assert(lines[i as int].deep_view() == lines.deep_view()[i as int]);
            }
            self.parse_line(lines[i].as_str(), &mut result, full_validate);
            proof {
                let lv = lines.deep_view();
                let t = lv.subrange(0, i + 1);
                assert(t.drop_last() =~= lv.subrange(0, i as int));
                assert(t.last() == lv[i as int]);
            }
            i += 1;
        }
        proof {
            assert(lines.deep_view().subrange(0, n as int) =~= lines.deep_view());
        }
        if full_validate {
            self.validate(&mut result);
        }
        result
    }
}

fn opt_u32_eq(a: &Option<u32>, b: &Option<u32>) -> (r: bool)
    ensures
        r == (a == b),
{
    match (a, b) {
        (Some(x), Some(y)) => x == y,
        (None, None) => true,
        _ => false,
    }
}

fn opt_bool_eq(a: &Option<bool>, b: &Option<bool>) -> (r: bool)
    ensures
        r == (a == b),
{
    match (a, b) {
        (Some(x), Some(y)) => x == y,
        (None, None) => true,
        _ => false,
    }
}

fn opt_string_eq(a: &Option<String>, b: &Option<String>) -> (r: bool)
    ensures
        r == (a.deep_view() == b.deep_view()),
{
    match (a, b) {
        (Some(x), Some(y)) => {
            let e = *x == *y;
            proof {
                assert(a.deep_view() == Some(x@));
                assert(b.deep_view() == Some(y@));
                if e {
                    assert(a.deep_view() == b.deep_view());
                }
            }
            e
        },
        (None, None) => true,
        (Some(x), None) => {
            assert(a.deep_view() == Some(x@));
            false
        },
        (None, Some(y)) => {
            assert(b.deep_view() == Some(y@));
            false
        },
    }
}

fn deps_eq(a: &Vec<DependsEntry>, b: &Vec<DependsEntry>) -> (r: bool)
    ensures
        r == (a.deep_view() == b.deep_view()),
{
    if a.len() != b.len() {
        assert(a.deep_view().len() != b.deep_view().len());
        return false;
    }
    let n = a.len();
    let mut i: usize = 0;
    while i < n
        invariant
            n == a.len() == b.len(),
            i <= n,
            forall|j: int| 0 <= j < i ==> a.deep_view()[j] == b.deep_view()[j],
        decreases n - i,
    {
        let ae = &a[i];
        let be = &b[i];
        if !(ae.title == be.title && opt_u32_eq(&ae.version, &be.version)) {
            assert(a.deep_view()[i as int] != b.deep_view()[i as int]);
            return false;
        }
        i += 1;
    }
    proof {
        assert(a.deep_view() =~= b.deep_view());
    }
    true
}

} // verus!
