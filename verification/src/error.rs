use vstd::prelude::*;

verus! {

/// Mathematical image of a [`ManifestError`]: string payloads become
/// sequences of characters, count payloads become unbounded naturals.
#[verifier::ext_equal]
pub enum ErrView {
    MissingDirective(Seq<char>),
    InvalidDirective(Seq<char>),
    UnknownDirective(Seq<char>),
    UnmappedDirective(Seq<char>),
    Encoding,
    LineLength(nat),
    CommentLength(nat),
    TitleLength(nat),
    ApiMinimumVersion(u32),
    InvalidValue(Seq<char>, Seq<char>),
    ReadLineError(Seq<char>),
    Unknown,
}

/// A diagnostic recorded while reading a manifest.  Every anomaly a parse
/// meets becomes one of these values, appended to the record's `errors` or
/// `warnings` list; parsing itself never fails part-way.
#[derive(Debug, PartialEq, Eq)]
pub enum ManifestError {
    /// A required directive (`Title` or `Author`) was never given a
    /// non-blank value; carries the directive name.
    MissingDirective(String),
    /// A line opened like a directive but did not match
    /// `## <name>: <value>`; carries the whole line.
    InvalidDirective(String),
    /// Reserved: not produced by the current rule set.
    UnknownDirective(String),
    /// A well-formed directive whose name is not recognized; carries the
    /// directive's value.  Always recorded as a warning, never an error.
    UnmappedDirective(String),
    /// Reserved: no encoding check is currently performed.
    Encoding,
    /// A directive line longer than 301 bytes; carries the byte length.
    LineLength(usize),
    /// A comment line longer than 1024 characters; carries the character
    /// count.
    CommentLength(usize),
    /// A title longer than 64 characters; carries the character count.
    TitleLength(usize),
    /// The manifest's `APIVersion` is below the accepted minimum; carries
    /// the version that was given.
    ApiMinimumVersion(u32),
    /// A directive value (or part of one) that should have been an integer
    /// or a boolean did not parse; carries the field name and the raw text.
    InvalidValue(String, String),
    /// The line source failed; carries a description of the cause.
    ReadLineError(String),
    /// Reserved catch-all.
    Unknown,
}

impl View for ManifestError {
    type V = ErrView;

    open spec fn view(&self) -> ErrView {
        match self {
            ManifestError::MissingDirective(s) => ErrView::MissingDirective(s@),
            ManifestError::InvalidDirective(s) => ErrView::InvalidDirective(s@),
            ManifestError::UnknownDirective(s) => ErrView::UnknownDirective(s@),
            ManifestError::UnmappedDirective(s) => ErrView::UnmappedDirective(s@),
            ManifestError::Encoding => ErrView::Encoding,
            ManifestError::LineLength(n) => ErrView::LineLength(*n as nat),
            ManifestError::CommentLength(n) => ErrView::CommentLength(*n as nat),
            ManifestError::TitleLength(n) => ErrView::TitleLength(*n as nat),
            ManifestError::ApiMinimumVersion(v) => ErrView::ApiMinimumVersion(*v),
            ManifestError::InvalidValue(f, r) => ErrView::InvalidValue(f@, r@),
            ManifestError::ReadLineError(s) => ErrView::ReadLineError(s@),
            ManifestError::Unknown => ErrView::Unknown,
        }
    }
}

impl DeepView for ManifestError {
    type V = ErrView;

    open spec fn deep_view(&self) -> ErrView {
        self.view()
    }
}

} // verus!
