//! The boundary to the outside crates: declarations of their types, names
//! for what their parsers yield, and thin wrappers around the calls the
//! discovery logic makes. Every parser's verdict and every extraction below
//! is a pure function of the text it is given, so each is named and the
//! wrapper's contract ties the call to its name; a result that depends on
//! what is on disk is left unconstrained.

use vstd::prelude::*;

verus! {

#[verifier::external_type_specification]
#[verifier::external_body]
pub struct ExSemverVersion(semver::Version);

#[verifier::external_type_specification]
#[verifier::external_body]
pub struct ExSemverError(semver::Error);

#[verifier::external_type_specification]
#[verifier::external_body]
pub struct ExAxoassetError(axoasset::AxoassetError);

/// Relies on `camino::Utf8Path::is_file`: whether the path names an existing
/// regular file. The answer depends on what is on disk, so nothing is
/// promised of it.
#[verifier::external_body]
pub(crate) fn path_is_file(path: &str) -> bool {
    camino::Utf8Path::new(path).is_file()
}

/// Relies on `axoasset::LocalAsset::load_string`: the contents of the file at
/// the path, or an error. The result depends on what is on disk, so nothing
/// is promised of it.
#[verifier::external_body]
pub(crate) fn load_file_string(path: &str) -> Result<String, axoasset::AxoassetError> {
    axoasset::LocalAsset::load_string(path)
}

/// Whether a text is a well-formed TOML document: exactly the texts the TOML
/// parser accepts.
pub uninterp spec fn toml_parses(s: Seq<char>) -> bool;

/// The string value of `section.key` in a TOML document: the text it holds
/// when the document parses and that entry is a string, else nothing.
pub uninterp spec fn toml_str_of(s: Seq<char>, section: Seq<char>, key: Seq<char>) -> Option<
    Seq<char>,
>;

/// The string-list value of `section.key` in a TOML document: its elements
/// when the document parses and that entry is an array of strings, else
/// nothing.
pub uninterp spec fn toml_str_list_of(s: Seq<char>, section: Seq<char>, key: Seq<char>) -> Option<
    Seq<Seq<char>>,
>;

/// Whether `section.key` is present in a parsed TOML document.
pub uninterp spec fn toml_key_present_of(s: Seq<char>, section: Seq<char>, key: Seq<char>) -> bool;

/// Whether a top-level key is present in a parsed TOML document.
pub uninterp spec fn toml_root_key_present_of(s: Seq<char>, key: Seq<char>) -> bool;

/// Whether a top-level key of a parsed TOML document holds a table.
pub uninterp spec fn toml_root_key_table_of(s: Seq<char>, key: Seq<char>) -> bool;

/// Relies on `toml::Table`'s `FromStr`: whether the text parses as a TOML
/// document. Acceptance depends on the text alone.
#[verifier::external_body]
pub(crate) fn toml_check(src: &str) -> (r: bool)
    ensures
        r == toml_parses(src@),
{
    src.parse::<toml::Table>().is_ok()
}

/// Relies on `toml::Table`'s `FromStr`, `toml::Table::get` and
/// `toml::Value::get`/`as_str`: the string at `section.key` of the parsed
/// document, or `None` when the text does not parse, the entry is absent, or
/// it is not a string. The result depends on the text alone.
#[verifier::external_body]
pub(crate) fn toml_get_str(src: &str, section: &str, key: &str) -> (r: Option<String>)
    ensures
        r.deep_view() == toml_str_of(src@, section@, key@),
{
    let table: toml::Table = match src.parse() { Ok(t) => t, Err(_) => return None };
    let sec = match table.get(section) { Some(s) => s, None => return None };
    let value = match sec.get(key) { Some(v) => v, None => return None };
    match value.as_str() { Some(s) => Some(s.to_owned()), None => None }
}

/// Relies on `toml::Table`'s `FromStr`, `toml::Table::get` and
/// `toml::Value::get`/`as_array`/`as_str`: the strings in the array at
/// `section.key` of the parsed document, or `None` when the text does not
/// parse, the entry is absent or not an array, or any element is not a
/// string. The result depends on the text alone.
#[verifier::external_body]
pub(crate) fn toml_get_str_list(src: &str, section: &str, key: &str) -> (r: Option<Vec<String>>)
    ensures
        r.deep_view() == toml_str_list_of(src@, section@, key@),
{
    let table: toml::Table = match src.parse() { Ok(t) => t, Err(_) => return None };
    let sec = match table.get(section) { Some(s) => s, None => return None };
    let value = match sec.get(key) { Some(v) => v, None => return None };
    let array = match value.as_array() { Some(a) => a, None => return None };
    let mut out: Vec<String> = Vec::new();
    for element in array {
        match element.as_str() { Some(s) => out.push(s.to_owned()), None => return None }
    }
    Some(out)
}

/// Relies on `toml::Table`'s `FromStr`, `toml::Table::get` and
/// `toml::Value::get`: whether `section.key` is present in the parsed
/// document. The result depends on the text alone.
#[verifier::external_body]
pub(crate) fn toml_key_present(src: &str, section: &str, key: &str) -> (r: bool)
    ensures
        r == toml_key_present_of(src@, section@, key@),
{
    let table: toml::Table = match src.parse() { Ok(t) => t, Err(_) => return false };
    match table.get(section) { Some(sec) => sec.get(key).is_some(), None => false }
}

/// Relies on `toml::Table`'s `FromStr` and `toml::Table::get`: whether the
/// top-level key is present in the parsed document. The result depends on
/// the text alone.
#[verifier::external_body]
pub(crate) fn toml_root_key_present(src: &str, key: &str) -> (r: bool)
    ensures
        r == toml_root_key_present_of(src@, key@),
{
    match src.parse::<toml::Table>() { Ok(table) => table.get(key).is_some(), Err(_) => false }
}

/// Relies on `toml::Table`'s `FromStr`, `toml::Table::get` and
/// `toml::Value::is_table`: whether the top-level key of the parsed document
/// holds a table. The result depends on the text alone.
#[verifier::external_body]
pub(crate) fn toml_root_key_is_table(src: &str, key: &str) -> (r: bool)
    ensures
        r == toml_root_key_table_of(src@, key@),
{
    let table: toml::Table = match src.parse() { Ok(t) => t, Err(_) => return false };
    match table.get(key) { Some(v) => v.is_table(), None => false }
}

/// Whether a text is a well-formed JSON document: exactly the texts the JSON
/// parser accepts.
pub uninterp spec fn json_parses(s: Seq<char>) -> bool;

/// The string value of a top-level key in a JSON document: the text it holds
/// when the document parses and that entry is a string, else nothing.
pub uninterp spec fn json_str_of(s: Seq<char>, key: Seq<char>) -> Option<Seq<char>>;

/// The string value of `key.sub` in a JSON document: the text it holds when
/// the document parses and that nested entry is a string, else nothing.
pub uninterp spec fn json_str2_of(s: Seq<char>, key: Seq<char>, sub: Seq<char>) -> Option<
    Seq<char>,
>;

/// Whether a top-level key is present in a parsed JSON document.
pub uninterp spec fn json_key_present_of(s: Seq<char>, key: Seq<char>) -> bool;

/// Whether `key.sub` is present in a parsed JSON document.
pub uninterp spec fn json_key2_present_of(s: Seq<char>, key: Seq<char>, sub: Seq<char>) -> bool;

/// Whether a top-level key of a parsed JSON document holds an object.
pub uninterp spec fn json_key_object_of(s: Seq<char>, key: Seq<char>) -> bool;

/// Relies on `serde_json::from_str`: whether the text parses as a JSON
/// document. Acceptance depends on the text alone.
#[verifier::external_body]
pub(crate) fn json_check(src: &str) -> (r: bool)
    ensures
        r == json_parses(src@),
{
    serde_json::from_str::<serde_json::Value>(src).is_ok()
}

/// Relies on `serde_json::from_str` and `serde_json::Value::get`/`as_str`:
/// the string at the top-level key of the parsed document, or `None` when
/// the text does not parse, the entry is absent, or it is not a string. The
/// result depends on the text alone.
#[verifier::external_body]
pub(crate) fn json_get_str(src: &str, key: &str) -> (r: Option<String>)
    ensures
        r.deep_view() == json_str_of(src@, key@),
{
    let root = match serde_json::from_str::<serde_json::Value>(src) {
        Ok(r) => r,
        Err(_) => return None,
    };
    let value = match root.get(key) { Some(v) => v, None => return None };
    match value.as_str() { Some(s) => Some(s.to_owned()), None => None }
}

/// Relies on `serde_json::from_str` and `serde_json::Value::get`/`as_str`:
/// the string at `key.sub` of the parsed document, or `None` when the text
/// does not parse, the nested entry is absent, or it is not a string. The
/// result depends on the text alone.
#[verifier::external_body]
pub(crate) fn json_get_str2(src: &str, key: &str, sub: &str) -> (r: Option<String>)
    ensures
        r.deep_view() == json_str2_of(src@, key@, sub@),
{
    let root = match serde_json::from_str::<serde_json::Value>(src) {
        Ok(r) => r,
        Err(_) => return None,
    };
    let value = match root.get(key) { Some(v) => v, None => return None };
    let nested = match value.get(sub) { Some(u) => u, None => return None };
    match nested.as_str() { Some(s) => Some(s.to_owned()), None => None }
}

/// Relies on `serde_json::from_str` and `serde_json::Value::get`: whether
/// the top-level key is present in the parsed document. The result depends
/// on the text alone.
#[verifier::external_body]
pub(crate) fn json_key_present(src: &str, key: &str) -> (r: bool)
    ensures
        r == json_key_present_of(src@, key@),
{
    match serde_json::from_str::<serde_json::Value>(src) {
        Ok(root) => root.get(key).is_some(),
        Err(_) => false,
    }
}

/// Relies on `serde_json::from_str` and `serde_json::Value::get`: whether
/// `key.sub` is present in the parsed document. The result depends on the
/// text alone.
#[verifier::external_body]
pub(crate) fn json_key2_present(src: &str, key: &str, sub: &str) -> (r: bool)
    ensures
        r == json_key2_present_of(src@, key@, sub@),
{
    let root = match serde_json::from_str::<serde_json::Value>(src) {
        Ok(r) => r,
        Err(_) => return false,
    };
    match root.get(key) { Some(v) => v.get(sub).is_some(), None => false }
}

/// Relies on `serde_json::from_str` and `serde_json::Value::get`/`is_object`:
/// whether the top-level key of the parsed document holds an object. The
/// result depends on the text alone.
#[verifier::external_body]
pub(crate) fn json_key_is_object(src: &str, key: &str) -> (r: bool)
    ensures
        r == json_key_object_of(src@, key@),
{
    let root = match serde_json::from_str::<serde_json::Value>(src) {
        Ok(r) => r,
        Err(_) => return false,
    };
    match root.get(key) { Some(v) => v.is_object(), None => false }
}

/// Whether a text is a valid semantic version: exactly the texts the semver
/// parser accepts.
pub uninterp spec fn semver_parses(s: Seq<char>) -> bool;

/// Relies on `semver::Version::parse`: the parsed semantic version, or an
/// error when the text is not a valid semantic version. Acceptance depends
/// on the text alone.
#[verifier::external_body]
pub(crate) fn parse_semver(src: &str) -> (r: Result<semver::Version, semver::Error>)
    ensures
        r is Ok <==> semver_parses(src@),
{
    semver::Version::parse(src)
}

} // verus!
