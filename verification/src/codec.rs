//! The format-specific decoders, as trusted external collaborators.
//!
//! Each recognized format maps to one decoding backend; a backend is a pure
//! function from text to `Result<T, ParseError>` for any serde-decodable
//! `T`.  What a backend returns for a given `T` is the business of that
//! type's `Deserialize` implementation, so nothing beyond the call itself
//! is assumed here; the watch-and-refresh logic treats every outcome the
//! same way whatever came back.

use vstd::prelude::*;
use crate::error::ParseError;
use crate::format::FileFormat;

verus! {

#[verifier::external_type_specification]
#[verifier::external_body]
pub struct ExJsonError(serde_json::Error);

#[verifier::external_type_specification]
#[verifier::external_body]
pub struct ExYamlError(serde_yaml::Error);

#[verifier::external_type_specification]
#[verifier::external_body]
pub struct ExTomlError(toml::de::Error);

/// Relies on `serde_json::from_str`: decodes a JSON document into any
/// serde-decodable type, or reports why the text is not such a document.
#[verifier::external_body]
fn json_from_str<T: serde::de::DeserializeOwned>(text: &str) -> Result<T, serde_json::Error> {
    serde_json::from_str(text)
}

/// Relies on `serde_yaml::from_str`: decodes a YAML document into any
/// serde-decodable type, or reports why the text is not such a document.
#[verifier::external_body]
fn yaml_from_str<T: serde::de::DeserializeOwned>(text: &str) -> Result<T, serde_yaml::Error> {
    serde_yaml::from_str(text)
}

/// Relies on `toml::from_str`: decodes a TOML document into any
/// serde-decodable type, or reports why the text is not such a document.
#[verifier::external_body]
fn toml_from_str<T: serde::de::DeserializeOwned>(text: &str) -> Result<T, toml::de::Error> {
    toml::from_str(text)
}

/// Relies on the `Display` impl of `serde_json::Error` for the message.
#[verifier::external_body]
fn json_error_message(e: &serde_json::Error) -> String {
    format!("{}", e)
}

/// Relies on the `Display` impl of `serde_yaml::Error` for the message.
#[verifier::external_body]
fn yaml_error_message(e: &serde_yaml::Error) -> String {
    format!("{}", e)
}

/// Relies on the `Display` impl of `toml::de::Error` for the message.
#[verifier::external_body]
fn toml_error_message(e: &toml::de::Error) -> String {
    format!("{}", e)
}

/// Decode `text` into any serde-decodable value under `format`.  Stateless
/// and pure; the three formats go to three distinct backends, and a
/// backend's failure comes back as this library's [`ParseError`].
pub fn decode_str<T: serde::de::DeserializeOwned>(text: &str, format: FileFormat) -> Result<
    T,
    ParseError,
> {
    match format {
        FileFormat::Json => {
            match json_from_str::<T>(text) {
                Ok(v) => Ok(v),
                Err(e) => Err(ParseError { message: json_error_message(&e) }),
            }
        },
        FileFormat::Yaml => {
            match yaml_from_str::<T>(text) {
                Ok(v) => Ok(v),
                Err(e) => Err(ParseError { message: yaml_error_message(&e) }),
            }
        },
        FileFormat::Toml => {
            match toml_from_str::<T>(text) {
                Ok(v) => Ok(v),
                Err(e) => Err(ParseError { message: toml_error_message(&e) }),
            }
        },
    }
}

} // verus!
