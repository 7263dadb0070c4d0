//! Where a configuration is read from, and in which format it is written.
//!
//! The host does the reading. What is decided here is how a location is to
//! be read, and whether text is to be taken for JSON or for XML.

use vstd::prelude::*;
use crate::utils::text::{chars_of, has_prefix, starts_with, str_eq, trim, trimmed_text};

verus! {

/// The scheme that `url::Url::parse` finds in a text: the scheme of the URL
/// in lower case and without its colon, or `None` where the text is no
/// absolute URL.
pub uninterp spec fn parsed_url_scheme(text: Seq<char>) -> Option<Seq<char>>;

/// Whether `serde_json::from_str` reads a text as a JSON value.
pub uninterp spec fn is_json_text(text: Seq<char>) -> bool;

/// Calls `url::Url::parse` and hands out the `scheme` of the URL. Trusted:
/// the result is the named scheme of the text.
#[verifier::external_body]
pub(crate) fn url_scheme(text: &str) -> (scheme: Option<String>)
    ensures
        scheme.deep_view() == parsed_url_scheme(text@),
{
    match url::Url::parse(text) {
        Ok(parsed) => Some(parsed.scheme().to_string()),
        Err(_) => None,
    }
}

/// Calls `serde_json::from_str` for a `serde_json::Value`. Trusted: the
/// result says whether the text was read, as named.
#[verifier::external_body]
pub(crate) fn is_json(content: &str) -> (json: bool)
    ensures
        json == is_json_text(content@),
{
    serde_json::from_str::<serde_json::Value>(content).is_ok()
}

/// Whether a text is the path of a share on another machine: two
/// backslashes, a name that does not begin with a backslash, and a
/// backslash somewhere behind.
pub open spec fn is_unc_path(s: Seq<char>) -> bool {
    &&& s.len() >= 3
    &&& s[0] == '\\'
    &&& s[1] == '\\'
    &&& s[2] != '\\'
    &&& exists|i: int| 2 <= i < s.len() && s[i] == '\\'
}

/// Whether a scheme is one from which a configuration may be read.
pub open spec fn is_allowed_scheme(scheme: Seq<char>) -> bool {
    scheme == "http"@ || scheme == "https"@ || scheme == "file"@
}

/// Whether a text, in which `scheme` was found, is taken for a URL rather
/// than for the path of a file: a URL with an allowed scheme, or, where
/// the text is no URL at all, the path of a share.
pub open spec fn is_url_text(s: Seq<char>, scheme: Option<Seq<char>>) -> bool {
    match scheme {
        Some(found) => is_allowed_scheme(found),
        None => is_unc_path(s),
    }
}

#[verifier::loop_isolation(false)]
fn unc_path(s: &str) -> (unc: bool)
    ensures
        unc == is_unc_path(s@),
{
    let chars = chars_of(s);
    let n = chars.len();
    if n < 3 || chars[0] != '\\' || chars[1] != '\\' || chars[2] == '\\' {
        return false;
    }
    let mut i: usize = 2;
    while i < n
        invariant
            chars@ == s@,
            n == chars.len(),
            2 <= i <= n,
            forall|k: int| 2 <= k < i ==> chars@[k] != '\\',
        decreases n - i,
    {
        if chars[i] == '\\' {
            return true;
        }
        i += 1;
    }
    false
}

fn allowed_scheme(scheme: &str) -> (allowed: bool)
    ensures
        allowed == is_allowed_scheme(scheme@),
{
    str_eq(scheme, "http") || str_eq(scheme, "https") || str_eq(scheme, "file")
}

/// Whether `s`, in which `scheme` was found, is taken for a URL.
pub fn is_url_given(s: &str, scheme: Option<&str>) -> (url: bool)
    ensures
        url == is_url_text(s@, scheme.deep_view()),
{
    match scheme {
        Some(found) => allowed_scheme(found),
        None => unc_path(s),
    }
}

/// Whether `s` is taken for a URL rather than for the path of a file.
pub fn is_url(s: &str) -> (url: bool)
    ensures
        url == is_url_text(s@, parsed_url_scheme(s@)),
{
    let scheme = url_scheme(s);
    match &scheme {
        Some(found) => is_url_given(s, Some(found.as_str())),
        None => is_url_given(s, None),
    }
}

/// How a configuration is read.
#[derive(Debug, Clone, Copy, PartialEq, Eq, Structural)]
pub enum ConfigSource {
    /// A file, named by its path.
    File,
    /// A file on a share.
    UncFile,
    /// The body of the answer to an HTTP or HTTPS request.
    Http,
    /// A file, named by a `file` URL.
    FileUrl,
    /// Not at all: the scheme of the URL is not allowed.
    SchemeNotAllowed,
    /// Not at all: a text taken for a URL turns out to be none.
    NotAUrl,
}

/// How the configuration at `location` is read, `scheme` being the scheme
/// found in it.
pub open spec fn source_of(location: Seq<char>, scheme: Option<Seq<char>>) -> ConfigSource {
    if !is_url_text(location, scheme) {
        ConfigSource::File
    } else if has_prefix(location, "\\\\"@) {
        ConfigSource::UncFile
    } else {
        match scheme {
            Some(found) => if found == "http"@ || found == "https"@ {
                ConfigSource::Http
            } else if found == "file"@ {
                ConfigSource::FileUrl
            } else {
                ConfigSource::SchemeNotAllowed
            },
            None => ConfigSource::NotAUrl,
        }
    }
}

/// How the configuration at `location` is read, `scheme` being the scheme
/// found in it.
pub fn classify_source_given(location: &str, scheme: Option<&str>) -> (source: ConfigSource)
    ensures
        source == source_of(location@, scheme.deep_view()),
{
    if !is_url_given(location, scheme) {
        return ConfigSource::File;
    }
    if starts_with(location, "\\\\") {
        return ConfigSource::UncFile;
    }
    match scheme {
        Some(found) => if str_eq(found, "http") || str_eq(found, "https") {
            ConfigSource::Http
        } else if str_eq(found, "file") {
            ConfigSource::FileUrl
        } else {
            ConfigSource::SchemeNotAllowed
        },
        None => ConfigSource::NotAUrl,
    }
}

/// How the configuration at `location` is read.
pub fn classify_source(location: &str) -> (source: ConfigSource)
    ensures
        source == source_of(location@, parsed_url_scheme(location@)),
{
    let scheme = url_scheme(location);
    match &scheme {
        Some(found) => classify_source_given(location, Some(found.as_str())),
        None => classify_source_given(location, None),
    }
}

/// The format in which a configuration is written.
#[derive(Debug, Clone, Copy, PartialEq, Eq, Structural)]
pub enum ConfigFormat {
    Json,
    Xml,
    /// Not known: JSON is tried first, then XML.
    Unknown,
}

/// Whether content, once trimmed, begins like XML.
pub open spec fn is_xml_text(trimmed: Seq<char>) -> bool {
    has_prefix(trimmed, "<?xml"@) || has_prefix(trimmed, "<"@)
}

/// Whether trimmed content begins like XML.
pub fn is_trimmed_xml(trimmed: &str) -> (xml: bool)
    ensures
        xml == is_xml_text(trimmed@),
{
    starts_with(trimmed, "<?xml") || starts_with(trimmed, "<")
}

/// Whether `content` begins like XML, white space aside.
pub fn is_xml(content: &str) -> (xml: bool)
    ensures
        xml == is_xml_text(trimmed_text(content@)),
{
    is_trimmed_xml(trim(content))
}

/// The format of a configuration with the file extension `extension`,
/// given whether its content is JSON and whether it begins like XML: what
/// speaks for JSON is heard first.
pub open spec fn format_of(extension: Option<Seq<char>>, json: bool, xml: bool) -> ConfigFormat {
    if extension == Some("json"@) || json {
        ConfigFormat::Json
    } else if extension == Some("xml"@) || xml {
        ConfigFormat::Xml
    } else {
        ConfigFormat::Unknown
    }
}

fn has_extension(extension: Option<&str>, wanted: &str) -> (has: bool)
    ensures
        has == (extension.deep_view() == Some(wanted@)),
{
    match extension {
        Some(e) => str_eq(e, wanted),
        None => false,
    }
}

/// The format of a configuration with the file extension `extension`,
/// given whether its content is JSON and whether it begins like XML.
pub fn format_given(extension: Option<&str>, json: bool, xml: bool) -> (format: ConfigFormat)
    ensures
        format == format_of(extension.deep_view(), json, xml),
{
    if has_extension(extension, "json") || json {
        ConfigFormat::Json
    } else if has_extension(extension, "xml") || xml {
        ConfigFormat::Xml
    } else {
        ConfigFormat::Unknown
    }
}

/// The format in which the configuration `content`, read from a location
/// with the file extension `extension`, is taken to be written.
pub fn detect_format(extension: Option<&str>, content: &str) -> (format: ConfigFormat)
    ensures
        format == format_of(
            extension.deep_view(),
            is_json_text(content@),
            is_xml_text(trimmed_text(content@)),
        ),
{
    if has_extension(extension, "json") {
        return ConfigFormat::Json;
    }
    if is_json(content) {
        return ConfigFormat::Json;
    }
    if has_extension(extension, "xml") {
        return ConfigFormat::Xml;
    }
    if is_xml(content) {
        return ConfigFormat::Xml;
    }
    ConfigFormat::Unknown
}

/// The format in which a configuration is written to a file with the
/// extension `extension`: XML where the extension asks for it, else JSON.
pub fn save_format(extension: Option<&str>) -> (format: ConfigFormat)
    ensures
        format == if extension.deep_view() == Some("json"@) {
            ConfigFormat::Json
        } else if extension.deep_view() == Some("xml"@) {
            ConfigFormat::Xml
        } else {
            ConfigFormat::Json
        },
{
    if has_extension(extension, "json") {
        ConfigFormat::Json
    } else if has_extension(extension, "xml") {
        ConfigFormat::Xml
    } else {
        ConfigFormat::Json
    }
}

} // verus!
