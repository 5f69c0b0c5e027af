//! Where a module lies on disk.
//!
//! A module is named by a URL. Only a module that is a file takes part: its path
//! is what the glob patterns are matched against, and its directory goes into the
//! environment of its commands. How a URL turns into a path depends on the
//! target, so of the path and the directory nothing is stated here; what is
//! done with them is stated where they are used.

use vstd::prelude::*;

verus! {

/// `url::Url`, a parsed URL.
#[verifier::external_type_specification]
#[verifier::external_body]
pub struct ExUrl(url::Url);

/// `url::ParseError`, why a text is no URL.
#[verifier::external_type_specification]
#[verifier::external_body]
pub struct ExUrlParseError(url::ParseError);

/// Whether `url::Url::parse` reads the text as an absolute URL.
pub uninterp spec fn url_parses(text: Seq<char>) -> bool;

/// Calls `url::Url::parse`, which reads an absolute URL. Whether a URL comes
/// back depends on `text` alone.
#[verifier::external_body]
fn parse_url(text: &str) -> (r: Result<url::Url, url::ParseError>)
    ensures
        r is Ok <==> url_parses(text@),
{
    url::Url::parse(text)
}

/// Calls `url::Url::to_file_path`, which gives the path of a file URL in the
/// form of the target, and hands the path on where it is valid Unicode.
#[verifier::external_body]
fn url_file_path(url: &url::Url) -> Option<String> {
    match url.to_file_path() {
        Ok(path) => path.into_os_string().into_string().ok(),
        Err(_) => None,
    }
}

/// Calls `std::path::Path::parent`, which gives the path without its last
/// component, if it has one.
#[verifier::external_body]
fn parent_directory(path: &str) -> Option<String> {
    match std::path::Path::new(path).parent() {
        Some(parent) => parent.to_str().map(String::from),
        None => None,
    }
}

/// The file of a module and the directory that holds it.
#[derive(Clone, Debug, PartialEq, Eq)]
pub struct ModuleLocation {
    pub path: String,
    pub dir: String,
}

/// Where the module named by `specifier` lies on disk; `None` where the
/// specifier is no URL, names no file, or names a file without a directory.
///
/// Only a specifier that reads as a URL is located. Which URLs name a file,
/// and what its path and directory are, is for the target to say.
pub fn locate_module(specifier: &str) -> (r: Option<ModuleLocation>)
    ensures
        r is Some ==> url_parses(specifier@),
{
    let url = match parse_url(specifier) {
        Ok(url) => url,
        Err(_) => {
            return None;
        },
    };
    let path = match url_file_path(&url) {
        Some(path) => path,
        None => {
            return None;
        },
    };
    match parent_directory(path.as_str()) {
        Some(dir) => Some(ModuleLocation { path, dir }),
        None => None,
    }
}

} // verus!
