//! Reading an application's bundle metadata out of property-list bytes:
//! the identifier, names, version, declared document types and declared
//! URL schemes.  The property-list parsing itself is the `plist` crate's;
//! the field selection and fallback rules around it are verified.

use vstd::prelude::*;
use crate::app::DeclaredType;
use crate::workspace::{AppMetadata, BundleMetadata};

verus! {

#[verifier::external_type_specification]
#[verifier::external_body]
pub struct ExPlistValue(plist::Value);

#[verifier::external_type_specification]
#[verifier::external_body]
pub struct ExPlistDictionary(plist::Dictionary);

#[verifier::external_type_specification]
#[verifier::external_body]
pub struct ExPlistError(plist::Error);

/// Relies on plist::from_bytes: parse a property list of any encoding
/// from a byte buffer.
#[verifier::external_body]
fn parse_plist_bytes(bytes: &[u8]) -> (r: Result<plist::Value, plist::Error>) {
    plist::from_bytes(bytes)
}

/// Relies on the Display rendering of plist::Error for the diagnostic
/// text of a parse failure.
#[verifier::external_body]
fn plist_error_message(e: &plist::Error) -> (r: String) {
    format!("{}", e)
}

/// Relies on plist::Value::as_dictionary: the dictionary inside a value,
/// when the value is one.
#[verifier::external_body]
fn value_as_dictionary(v: &plist::Value) -> (r: Option<&plist::Dictionary>) {
    v.as_dictionary()
}

/// Relies on plist::Value::as_string: the text inside a value, when the
/// value is a string.
#[verifier::external_body]
fn value_as_string(v: &plist::Value) -> (r: Option<String>) {
    v.as_string().map(|s| s.to_owned())
}

/// Relies on plist::Value::as_array: the elements inside a value, when
/// the value is an array.
#[verifier::external_body]
fn value_as_array(v: &plist::Value) -> (r: Option<&Vec<plist::Value>>) {
    v.as_array()
}

/// Relies on plist::Dictionary::get: the value bound to a key, if any.
#[verifier::external_body]
fn dict_get<'a>(d: &'a plist::Dictionary, key: &str) -> (r: Option<&'a plist::Value>) {
    d.get(key)
}

/// The string bound to a key in a metadata dictionary, when the key is
/// present and its value is a string.
fn dict_string(d: &plist::Dictionary, key: &str) -> Option<String> {
    match dict_get(d, key) {
        Some(v) => value_as_string(v),
        None => None,
    }
}

/// Every string element of a property-list array, in order.
fn strings_of_array(arr: &Vec<plist::Value>) -> Vec<String> {
    let n = arr.len();
    let mut out: Vec<String> = Vec::new();
    let mut i: usize = 0;
    while i < n
        invariant
            i <= n,
            n == arr@.len(),
        decreases n - i,
    {
        match value_as_string(&arr[i]) {
            Some(s) => out.push(s),
            None => (),
        }
        i = i + 1;
    }
    out
}

/// The string array bound to a key, or the empty list when the key is
/// absent or not an array.
fn dict_string_array(d: &plist::Dictionary, key: &str) -> Vec<String> {
    match dict_get(d, key) {
        Some(v) => match value_as_array(v) {
            Some(arr) => strings_of_array(arr),
            None => Vec::new(),
        },
        None => Vec::new(),
    }
}

/// The document types a metadata dictionary declares: each entry's name,
/// canonical type strings, extensions, and optional description.
fn parse_document_types(info: &plist::Dictionary) -> Vec<DeclaredType> {
    let mut out: Vec<DeclaredType> = Vec::new();
    let doc_types = match dict_get(info, "CFBundleDocumentTypes") {
        Some(v) => match value_as_array(v) {
            Some(arr) => arr,
            None => {
                return out;
            },
        },
        None => {
            return out;
        },
    };
    let n = doc_types.len();
    let mut i: usize = 0;
    while i < n
        invariant
            i <= n,
            n == doc_types@.len(),
        decreases n - i,
    {
        match value_as_dictionary(&doc_types[i]) {
            Some(td) => {
                let name = match dict_string(td, "CFBundleTypeName") {
                    Some(s) => s,
                    None => "Unknown Type".to_owned(),
                };
                let description = dict_string(td, "CFBundleTypeDescription");
                let utis = dict_string_array(td, "LSItemContentTypes");
                let extensions = dict_string_array(td, "CFBundleTypeExtensions");
                out.push(DeclaredType { name, utis, extensions, description });
            },
            None => (),
        }
        i = i + 1;
    }
    out
}

/// The URL schemes a metadata dictionary declares, across all its URL
/// type entries, in order.
fn parse_url_schemes(info: &plist::Dictionary) -> Vec<String> {
    let mut schemes: Vec<String> = Vec::new();
    let url_types = match dict_get(info, "CFBundleURLTypes") {
        Some(v) => match value_as_array(v) {
            Some(arr) => arr,
            None => {
                return schemes;
            },
        },
        None => {
            return schemes;
        },
    };
    let n = url_types.len();
    let mut i: usize = 0;
    while i < n
        invariant
            i <= n,
            n == url_types@.len(),
        decreases n - i,
    {
        match value_as_dictionary(&url_types[i]) {
            Some(td) => {
                let mut found = dict_string_array(td, "CFBundleURLSchemes");
                schemes.append(&mut found);
            },
            None => (),
        }
        i = i + 1;
    }
    schemes
}

/// Parse one bundle's metadata bytes.  A buffer that does not parse, or
/// whose root is not a dictionary, is unreadable; a parsed dictionary
/// yields the metadata record, with the short version string preferred
/// over the build version.  The result never claims the metadata file is
/// absent: absence is the caller's finding.
pub fn read_bundle_metadata(bytes: &[u8]) -> (r: BundleMetadata)
    ensures
        !(r is Missing),
{
    let value = match parse_plist_bytes(bytes) {
        Ok(v) => v,
        Err(e) => {
            return BundleMetadata::Unreadable { message: plist_error_message(&e) };
        },
    };
    let dict = match value_as_dictionary(&value) {
        Some(d) => d,
        None => {
            return BundleMetadata::Unreadable {
                message: "metadata root is not a dictionary".to_owned(),
            };
        },
    };
    let version = match dict_string(dict, "CFBundleShortVersionString") {
        Some(v) => Some(v),
        None => dict_string(dict, "CFBundleVersion"),
    };
    BundleMetadata::Parsed(AppMetadata {
        bundle_id: dict_string(dict, "CFBundleIdentifier"),
        display_name: dict_string(dict, "CFBundleDisplayName"),
        name: dict_string(dict, "CFBundleName"),
        version,
        declared_types: parse_document_types(dict),
        declared_schemes: parse_url_schemes(dict),
    })
}

} // verus!
