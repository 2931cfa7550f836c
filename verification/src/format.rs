//! The declared on-disk format of a watched configuration file.

use vstd::prelude::*;

verus! {

/// Which structured-data syntax the watched file is written in.
///
/// The format is attached to a `WatchedFile` by its builder methods and is
/// fixed once the file is put into active use; every read and refresh decodes
/// with the codec this tag selects.
#[derive(Clone, Copy, PartialEq, Eq, Structural, Debug)]
pub enum FileFormat {
    Json,
    Yaml,
    Toml,
}

impl FileFormat {
    /// The lower-case name of the format, as used in file extensions.
    pub fn name(&self) -> (r: &'static str)
        ensures
            *self is Json ==> r@ == "json"@,
            *self is Yaml ==> r@ == "yaml"@,
            *self is Toml ==> r@ == "toml"@,
    {
        match self {
            FileFormat::Json => "json",
            FileFormat::Yaml => "yaml",
            FileFormat::Toml => "toml",
        }
    }
}

} // verus!
