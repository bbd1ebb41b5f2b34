use vstd::prelude::*;

use crate::decode::{decode_text, decoded_text, MAX_FILE_LEN};
use crate::error::LoginError;

verus! {

#[verifier::external_type_specification]
#[verifier::external_body]
pub struct ExIni(ini::Ini);

#[verifier::external_type_specification]
#[verifier::external_body]
pub struct ExParseError(ini::ParseError);

/// What rust-ini's parser makes of `text`: the contents of the document,
/// as `ini_sections` gives them, or `None` where it rejects the text.
pub uninterp spec fn ini_parse(text: Seq<char>) -> Option<
    Map<Seq<char>, Seq<(Seq<char>, Seq<char>)>>,
>;

/// What a parsed INI document holds: for each section name, the key/value
/// pairs that `Ini::section(Some(name))` yields, in order.
pub uninterp spec fn ini_sections(c: ini::Ini) -> Map<Seq<char>, Seq<(Seq<char>, Seq<char>)>>;

/// The key/value pairs of `v` as pairs of character sequences.
pub open spec fn pair_views(v: Seq<(String, String)>) -> Seq<(Seq<char>, Seq<char>)> {
    v.map_values(|p: (String, String)| (p.0@, p.1@))
}

/// The key/value pairs of section `name` of `text`, read as an INI
/// document; `Syntax` where the parser rejects the text.
pub open spec fn section_of(text: Seq<char>, name: Seq<char>) -> Result<
    Seq<(Seq<char>, Seq<char>)>,
    LoginError,
> {
    match ini_parse(text) {
        None => Err(LoginError::Syntax),
        Some(doc) => if doc.contains_key(name) {
            Ok(doc[name])
        } else {
            Err(LoginError::SectionNotFound)
        },
    }
}

/// Relies on `ini::Ini::load_from_str`: the document it builds depends on
/// the text alone.
#[verifier::external_body]
fn load_ini(text: &str) -> (r: Result<ini::Ini, ini::ParseError>)
    ensures
        r is Ok <==> ini_parse(text@) is Some,
        r is Ok ==> ini_sections(r->Ok_0) == ini_parse(text@)->0,
{
    ini::Ini::load_from_str(text)
}

/// Relies on `ini::Ini::section` and `Properties::iter`: the named section,
/// if present, with its pairs copied out in order.
#[verifier::external_body]
fn section_entries(conf: &ini::Ini, name: &str) -> (r: Option<Vec<(String, String)>>)
    ensures
        r is Some <==> ini_sections(*conf).contains_key(name@),
        r is Some ==> pair_views(r->0@) == ini_sections(*conf)[name@],
{
    conf.section(Some(name)).map(
        |p| p.iter().map(|(k, v)| (k.to_string(), v.to_string())).collect(),
    )
}

/// The key/value pairs of section `login_path` of a parsed document, or
/// `SectionNotFound`.
pub fn section_pairs(conf: &ini::Ini, login_path: &str) -> (r: Result<
    Vec<(String, String)>,
    LoginError,
>)
    ensures
        r is Ok <==> ini_sections(*conf).contains_key(login_path@),
        r is Err ==> r == Err::<Vec<(String, String)>, LoginError>(LoginError::SectionNotFound),
        r is Ok ==> pair_views(r->Ok_0@) == ini_sections(*conf)[login_path@],
{
    match section_entries(conf, login_path) {
        Some(v) => Ok(v),
        None => Err(LoginError::SectionNotFound),
    }
}

/// Parses `text` as an INI document and returns section `login_path`.
/// Text the parser rejects is a `Syntax` error; a missing section is
/// `SectionNotFound`.
pub fn parse_text(login_path: &str, text: &str) -> (r: Result<Vec<(String, String)>, LoginError>)
    ensures
        match section_of(text@, login_path@) {
            Ok(pairs) => r is Ok && pair_views(r->Ok_0@) == pairs,
            Err(e) => r == Err::<Vec<(String, String)>, LoginError>(e),
        },
{
    match load_ini(text) {
        Ok(conf) => section_pairs(&conf, login_path),
        Err(_) => Err(LoginError::Syntax),
    }
}

/// Decodes a login file and returns the key/value pairs of section
/// `login_path` of its text.
pub fn parse_file(login_path: &str, encrypted: &[u8]) -> (r: Result<
    Vec<(String, String)>,
    LoginError,
>)
    requires
        encrypted@.len() <= MAX_FILE_LEN,
    ensures
        match decoded_text(encrypted@) {
            Err(e) => r == Err::<Vec<(String, String)>, LoginError>(e),
            Ok(t) => match section_of(t, login_path@) {
                Ok(pairs) => r is Ok && pair_views(r->Ok_0@) == pairs,
                Err(e) => r == Err::<Vec<(String, String)>, LoginError>(e),
            },
        },
{
    let text = decode_text(encrypted)?;
    parse_text(login_path, text.as_str())
}

} // verus!
