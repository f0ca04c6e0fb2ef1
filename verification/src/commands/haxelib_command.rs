use vstd::prelude::*;
use vstd::string::*;
use vstd::utf8::encode_utf8;
use crate::hmm::haxelib::{opt_text, Haxelib, HaxelibModel, HaxelibType};
use crate::text::{decimal, decimal_string, find_from, first_at, starts_with};

verus! {

/// Why the registry's answer gives no version.
#[derive(Debug, PartialEq, Eq, Clone, Copy, Structural)]
pub enum HaxelibError {
    /// The answer has no second field.
    MalformedReply,
    /// The field is no percent-encoding of text.
    BadEncoding,
    /// The registry has no project of that name.
    NoSuchProject,
}

/// The question that asks the registry for the latest release of `name`, in the
/// registry's own serialisation: the name goes with its length in bytes.
pub open spec fn latest_version_query_spec(name: Seq<char>) -> Seq<char> {
    "ay3:apiy16:getLatestVersionhay"@ + decimal(encode_utf8(name).len()) + ":"@ + name + "h"@
}

pub fn latest_version_query(name: &str) -> (r: String)
    ensures
        r@ == latest_version_query_spec(name@),
{
    let mut out = String::from_str("ay3:apiy16:getLatestVersionhay");
    let bytes = name.as_bytes();
    out.append(decimal_string(bytes.len()).as_str());
    out.append(":");
    out.append(name);
    out.append("h");
    out
}

/// The second of the fields that `:` separates in the registry's answer.
pub open spec fn reply_field(reply: Seq<char>) -> Option<Seq<char>> {
    let start = first_at(reply, ':', 0);
    if start >= reply.len() {
        None
    } else {
        Some(reply.subrange(start + 1, first_at(reply, ':', start + 1)))
    }
}

fn second_field(reply: &str) -> (r: Option<&str>)
    ensures
        match reply_field(reply@) {
            Some(field) => r is Some && r->0@ == field,
            None => r is None,
        },
{
    let n = reply.unicode_len();
    let start = find_from(reply, ':', 0);
    if start >= n {
        None
    } else {
        let end = find_from(reply, ':', start + 1);
        Some(reply.substring_char(start + 1, end))
    }
}

/// What `urlencoding::decode` makes of a text: the text with its percent escapes
/// resolved, or nothing where the bytes that result are no UTF-8.
pub uninterp spec fn percent_decoded(data: Seq<char>) -> Option<Seq<char>>;

/// Calls `urlencoding::decode`.
///
/// Trusted: the result depends on the text alone; `percent_decoded` is its name.
#[verifier::external_body]
fn percent_decode(data: &str) -> (r: Option<String>)
    ensures
        opt_text(r) == percent_decoded(data@),
{
    match urlencoding::decode(data) {
        Ok(text) => Some(text.into_owned()),
        Err(_) => None,
    }
}

/// What a decoded answer says: the version, unless it begins with the registry's
/// words for an unknown project.
pub open spec fn version_in(decoded: Seq<char>) -> Result<Seq<char>, HaxelibError> {
    if "No such Project"@.is_prefix_of(decoded) {
        Err(HaxelibError::NoSuchProject)
    } else {
        Ok(decoded)
    }
}

/// The model of a version that may be missing.
pub open spec fn version_model(r: Result<String, HaxelibError>) -> Result<
    Seq<char>,
    HaxelibError,
> {
    match r {
        Ok(v) => Ok(v@),
        Err(e) => Err(e),
    }
}

/// Reads the version out of the decoded field of the registry's answer.
pub fn version_from_decoded(decoded: String) -> (r: Result<String, HaxelibError>)
    ensures
        version_model(r) == version_in(decoded@),
{
    if starts_with(decoded.as_str(), "No such Project") {
        Err(HaxelibError::NoSuchProject)
    } else {
        Ok(decoded)
    }
}

/// What the registry's answer says, from the raw text on.
pub open spec fn version_in_reply(reply: Seq<char>) -> Result<Seq<char>, HaxelibError> {
    match reply_field(reply) {
        None => Err(HaxelibError::MalformedReply),
        Some(field) => match percent_decoded(field) {
            None => Err(HaxelibError::BadEncoding),
            Some(decoded) => version_in(decoded),
        },
    }
}

/// Reads the latest version out of the registry's answer.
pub fn latest_version(reply: &str) -> (r: Result<String, HaxelibError>)
    ensures
        version_model(r) == version_in_reply(reply@),
{
    match second_field(reply) {
        None => Err(HaxelibError::MalformedReply),
        Some(field) => match percent_decode(field) {
            None => Err(HaxelibError::BadEncoding),
            Some(decoded) => version_from_decoded(decoded),
        },
    }
}

/// What is to be done to install a release from the registry by name.
#[derive(Debug, PartialEq, Eq)]
pub enum HaxelibRequest {
    /// The version is known: install this dependency.
    Install(Haxelib),
    /// The version is not known: put this question to the registry first.
    Query(String),
}

/// The registry dependency `name` at `version`.
pub open spec fn release(name: Seq<char>, version: Seq<char>) -> HaxelibModel {
    HaxelibModel {
        name,
        haxelib_type: HaxelibType::Haxelib,
        vcs_ref: None,
        dir: None,
        url: None,
        version: Some(version),
    }
}

pub fn haxelib_release(name: &str, version: &str) -> (r: Haxelib)
    ensures
        r@ == release(name@, version@),
        r@.well_formed(),
{
    Haxelib {
        name: String::from_str(name),
        haxelib_type: HaxelibType::Haxelib,
        vcs_ref: None,
        dir: None,
        url: None,
        version: Some(String::from_str(version)),
    }
}

/// Decides how the release of a dependency named on the command line is installed:
/// at the version given, or, where none is given, after the registry was asked for the
/// latest.
pub fn install_haxelib(name: &str, version: &Option<String>) -> (r: HaxelibRequest)
    ensures
        match *version {
            Some(v) => r matches HaxelibRequest::Install(lib) && lib@ == release(name@, v@),
            None => r matches HaxelibRequest::Query(q) && q@ == latest_version_query_spec(name@),
        },
{
    match version {
        Some(v) => HaxelibRequest::Install(haxelib_release(name, v.as_str())),
        None => HaxelibRequest::Query(latest_version_query(name)),
    }
}

} // verus!
