//! File paths and `file:` URIs. Paths are held as their text.
use vstd::prelude::*;

verus! {

/// Whether `std::path::Path::starts_with` finds `base` to be a prefix of `path`,
/// comparing whole path components.
pub uninterp spec fn spec_path_starts_with(path: Seq<char>, base: Seq<char>) -> bool;

/// What `std::path::Path::extension` gives for `path`, as text.
pub uninterp spec fn spec_path_extension(path: Seq<char>) -> Option<Seq<char>>;

/// The text of `std::path::Path::join` of `base` and `rel`.
pub uninterp spec fn spec_path_join(base: Seq<char>, rel: Seq<char>) -> Seq<char>;

/// What `url::Url::parse` gives for `input`: the serialization of the URL that it
/// reads, or the description of the error that it reports.
pub uninterp spec fn spec_url_parse(input: Seq<char>) -> Result<Seq<char>, Seq<char>>;

/// What `url::Url::to_file_path` gives for the URL that `url::Url::parse` reads from
/// `url`: the text of the path, or `None` where either reports an error.
pub uninterp spec fn spec_url_file_path(url: Seq<char>) -> Option<Seq<char>>;

/// What `url::Url::from_file_path` gives for the path `path`: the serialization of
/// the `file:` URL of the path, or `None` where it reports an error (a path that
/// is not absolute).
pub uninterp spec fn spec_path_file_uri(path: Seq<char>) -> Option<Seq<char>>;

/// `std::path::Path::starts_with`: whether `base` is a prefix of `path`, comparing
/// whole path components. The contract only names the result.
#[verifier::external_body]
pub(crate) fn path_starts_with(path: &str, base: &str) -> (b: bool)
    ensures
        b == spec_path_starts_with(path@, base@),
{
    std::path::Path::new(path).starts_with(base)
}

/// `std::path::Path::extension`: the text after the last `.` of the file name of
/// `path`, if there is one. The contract only names the result.
#[verifier::external_body]
pub(crate) fn path_extension(path: &str) -> (r: Option<String>)
    ensures
        match r {
            Some(e) => spec_path_extension(path@) == Some(e@),
            None => spec_path_extension(path@) is None,
        },
{
    match std::path::Path::new(path).extension() {
        Some(e) => Some(e.to_string_lossy().into_owned()),
        None => None,
    }
}

/// `std::path::Path::join`: `rel` appended to `base` as a path. The contract only
/// names the result.
#[verifier::external_body]
pub(crate) fn path_join(base: &str, rel: &str) -> (r: String)
    ensures
        r@ == spec_path_join(base@, rel@),
{
    std::path::Path::new(base).join(rel).to_string_lossy().into_owned()
}

/// `url::Url::parse`: the serialization of the URL read from `input`, or the text
/// of the error that it reports. The contract only names the result.
#[verifier::external_body]
pub(crate) fn url_parse(input: &str) -> (r: Result<String, String>)
    ensures
        match r {
            Ok(u) => spec_url_parse(input@) == Ok::<Seq<char>, Seq<char>>(u@),
            Err(e) => spec_url_parse(input@) == Err::<Seq<char>, Seq<char>>(e@),
        },
{
    match url::Url::parse(input) {
        Ok(u) => Ok(String::from(u.as_str())),
        Err(e) => Err(e.to_string()),
    }
}

/// `url::Url::to_file_path` of the URL that `url::Url::parse` reads from `url`, as
/// text; `None` where either reports an error. The contract only names the result.
#[verifier::external_body]
pub(crate) fn url_file_path(url: &str) -> (r: Option<String>)
    ensures
        match r {
            Some(p) => spec_url_file_path(url@) == Some(p@),
            None => spec_url_file_path(url@) is None,
        },
{
    match url::Url::parse(url) {
        Ok(u) => match u.to_file_path() {
            Ok(p) => Some(p.to_string_lossy().into_owned()),
            Err(_) => None,
        },
        Err(_) => None,
    }
}

/// `url::Url::from_file_path`: the serialization of the `file:` URL of `path`, or
/// `None` where it reports an error. The contract only names the result.
#[verifier::external_body]
pub(crate) fn path_file_uri(path: &str) -> (r: Option<String>)
    ensures
        match r {
            Some(u) => spec_path_file_uri(path@) == Some(u@),
            None => spec_path_file_uri(path@) is None,
        },
{
    match url::Url::from_file_path(path) {
        Ok(u) => Some(String::from(u.as_str())),
        Err(_) => None,
    }
}

/// What a `file:` URI names.
#[derive(Debug, PartialEq, Eq)]
pub enum FileUri {
    /// The local file path that the URI names.
    Path(String),
    /// The URI, serialized, names no local file.
    NotAFile(String),
    /// The URI is no URL; the text says why.
    Invalid(String),
}

/// What the text of a `file:` URI names.
pub enum FileUriModel {
    Path(Seq<char>),
    NotAFile(Seq<char>),
    Invalid(Seq<char>),
}

impl FileUri {
    pub open spec fn model(&self) -> FileUriModel {
        match self {
            FileUri::Path(p) => FileUriModel::Path(p@),
            FileUri::NotAFile(u) => FileUriModel::NotAFile(u@),
            FileUri::Invalid(e) => FileUriModel::Invalid(e@),
        }
    }
}

/// What `uri` names: the URL is read with `url::Url::parse`, and its serialization
/// turned into a path with `url::Url::to_file_path` (see `spec_url_file_path`).
pub open spec fn spec_file_uri(uri: Seq<char>) -> FileUriModel {
    match spec_url_parse(uri) {
        Err(e) => FileUriModel::Invalid(e),
        Ok(u) => match spec_url_file_path(u) {
            Some(p) => FileUriModel::Path(p),
            None => FileUriModel::NotAFile(u),
        },
    }
}

/// The local path that the `file:` URI `uri` names.
pub fn file_uri_path(uri: &str) -> (r: FileUri)
    ensures
        r.model() == spec_file_uri(uri@),
{
    match url_parse(uri) {
        Err(e) => FileUri::Invalid(e),
        Ok(u) => match url_file_path(u.as_str()) {
            Some(p) => FileUri::Path(p),
            None => FileUri::NotAFile(u),
        },
    }
}

} // verus!
