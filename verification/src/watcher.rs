//! The facade that puts files under observation.
//!
//! A `Watcher` carries the chosen update mode and format and constructs
//! configured [`WatchedFile`]s; the convenience constructors compose watch,
//! format selection and cell seeding in one call.

use vstd::prelude::*;
use crate::auto_updated::AutoUpdated;
use crate::error::{IoError, ReadError};
use crate::format::FileFormat;
use crate::reload::{parse_fails, parses_to, Reloadable};
use crate::watched_file::WatchedFile;

verus! {

/// Whether modify events refresh the shared cell by themselves, or the
/// caller drives every refresh explicitly.
#[derive(Clone, Copy, Debug, PartialEq, Eq, Structural)]
pub enum UpdateType {
    /// Refresh only on an explicit `update` call.
    Manual,
    /// Refresh on every modify event.
    Automatic,
}

/// Factory for watched files.  It has no ambient state: everything a
/// watched file needs is handed over here.
pub struct Watcher {
    /// The update mode the next watched file gets.
    pub update_type: UpdateType,
    /// The format the next watched file gets.
    pub format: FileFormat,
}

impl Watcher {
    /// A watcher that hands out automatically updating JSON files until the
    /// builders say otherwise.
    pub fn new() -> (r: Self)
        ensures
            r.update_type is Automatic,
            r.format is Json,
    {
        Watcher { update_type: UpdateType::Automatic, format: FileFormat::Json }
    }

    /// Watched files constructed from here on are JSON.
    pub fn json(self) -> (r: Self)
        ensures
            r.format is Json,
            r.update_type == self.update_type,
    {
        Watcher { update_type: self.update_type, format: FileFormat::Json }
    }

    /// Watched files constructed from here on are YAML.
    pub fn yaml(self) -> (r: Self)
        ensures
            r.format is Yaml,
            r.update_type == self.update_type,
    {
        Watcher { update_type: self.update_type, format: FileFormat::Yaml }
    }

    /// Watched files constructed from here on are TOML.
    pub fn toml(self) -> (r: Self)
        ensures
            r.format is Toml,
            r.update_type == self.update_type,
    {
        Watcher { update_type: self.update_type, format: FileFormat::Toml }
    }

    /// Watched files constructed from here on refresh only on explicit
    /// `update` calls.
    pub fn manual(self) -> (r: Self)
        ensures
            r.update_type is Manual,
            r.format == self.format,
    {
        Watcher { update_type: UpdateType::Manual, format: self.format }
    }

    /// Put `file_path` under observation with this watcher's mode and
    /// format.
    pub fn watch<F: Fn(), R: Fn(&str) -> Result<String, IoError>>(
        &self,
        file_path: String,
        reader: R,
    ) -> (r: WatchedFile<F, R>)
        requires
            forall|p: &str| call_requires(reader, (p,)),
        ensures
            r.wf(),
            r.path == file_path,
            r.format == self.format,
            r.mode == self.update_type,
            r.registry.on_modify is None,
            r.registry.on_access is None,
            r.reader == reader,
    {
        let mut watched = WatchedFile::new(file_path, reader);
        watched.format = self.format;
        watched.mode = self.update_type;
        watched
    }

    /// Put `file_path` under observation in manual mode.
    pub fn watch_manual<F: Fn(), R: Fn(&str) -> Result<String, IoError>>(
        &self,
        file_path: String,
        reader: R,
    ) -> (r: WatchedFile<F, R>)
        requires
            forall|p: &str| call_requires(reader, (p,)),
        ensures
            r.wf(),
            r.path == file_path,
            r.format == self.format,
            r.mode is Manual,
            r.registry.on_modify is None,
            r.registry.on_access is None,
            r.reader == reader,
    {
        let mut watched = self.watch(file_path, reader);
        watched.mode = UpdateType::Manual;
        watched
    }

    /// Put `file_path` under observation in automatic mode.
    pub fn watch_automatic<F: Fn(), R: Fn(&str) -> Result<String, IoError>>(
        &self,
        file_path: String,
        reader: R,
    ) -> (r: WatchedFile<F, R>)
        requires
            forall|p: &str| call_requires(reader, (p,)),
        ensures
            r.wf(),
            r.path == file_path,
            r.format == self.format,
            r.mode is Automatic,
            r.registry.on_modify is None,
            r.registry.on_access is None,
            r.reader == reader,
    {
        let mut watched = self.watch(file_path, reader);
        watched.mode = UpdateType::Automatic;
        watched
    }

    /// Put `file_path` under observation with the default mode and format.
    pub fn watched_file_from<F: Fn(), R: Fn(&str) -> Result<String, IoError>>(
        file_path: String,
        reader: R,
    ) -> (r: WatchedFile<F, R>)
        requires
            forall|p: &str| call_requires(reader, (p,)),
        ensures
            r.wf(),
            r.path == file_path,
            r.format is Json,
            r.mode is Automatic,
            r.registry.on_modify is None,
            r.registry.on_access is None,
            r.reader == reader,
    {
        Watcher::new().watch(file_path, reader)
    }

    /// Watch `file_path` as `file_format` and keep a live typed value: the
    /// common case in one call.  The seeding read's failure propagates.
    pub fn auto_updated_from<
        W: Reloadable,
        F: Fn(),
        R: Fn(&str) -> Result<String, IoError>,
    >(file_path: String, file_format: FileFormat, reader: R) -> (r: Result<
        (AutoUpdated<W>, WatchedFile<F, R>),
        ReadError,
    >)
        requires
            forall|p: &str| call_requires(reader, (p,)),
        ensures
            r matches Ok(pair) ==> {
                &&& pair.1.wf()
                &&& pair.1.path == file_path
                &&& pair.1.format == file_format
                &&& pair.1.mode is Automatic
                &&& pair.1.reader == reader
                &&& exists|text: String|
                    #[trigger] pair.1.read_outcome(Ok(text)) && parses_to::<W>(
                        file_format,
                        text@,
                        pair.0.seed(),
                    )
            },
            r matches Err(ReadError::Io(e)) ==> exists|p: &str|
                p@ == file_path@ && #[trigger] call_ensures(reader, (p,), Err(e)),
            r matches Err(ReadError::Parse(_)) ==> exists|p: &str, text: String|
                p@ == file_path@ && #[trigger] call_ensures(reader, (p,), Ok(text))
                    && parse_fails::<W>(file_format, text@),
    {
        let watched: WatchedFile<F, R> = Watcher::new().watch(file_path, reader).format(
            file_format,
        );
        match watched.auto_updated::<W>() {
            Ok(value) => Ok((value, watched)),
            Err(e) => Err(e),
        }
    }

    /// Like [`Self::auto_updated_from`], but the watched file is in manual
    /// mode: the caller drives every refresh.
    pub fn manual_updated_from<
        W: Reloadable,
        F: Fn(),
        R: Fn(&str) -> Result<String, IoError>,
    >(file_path: String, file_format: FileFormat, reader: R) -> (r: Result<
        (AutoUpdated<W>, WatchedFile<F, R>),
        ReadError,
    >)
        requires
            forall|p: &str| call_requires(reader, (p,)),
        ensures
            r matches Ok(pair) ==> {
                &&& pair.1.wf()
                &&& pair.1.path == file_path
                &&& pair.1.format == file_format
                &&& pair.1.mode is Manual
                &&& pair.1.reader == reader
                &&& exists|text: String|
                    #[trigger] pair.1.read_outcome(Ok(text)) && parses_to::<W>(
                        file_format,
                        text@,
                        pair.0.seed(),
                    )
            },
            r matches Err(ReadError::Io(e)) ==> exists|p: &str|
                p@ == file_path@ && #[trigger] call_ensures(reader, (p,), Err(e)),
            r matches Err(ReadError::Parse(_)) ==> exists|p: &str, text: String|
                p@ == file_path@ && #[trigger] call_ensures(reader, (p,), Ok(text))
                    && parse_fails::<W>(file_format, text@),
    {
        let watched: WatchedFile<F, R> = Watcher::new().manual().watch(file_path, reader).format(
            file_format,
        );
        match watched.auto_updated::<W>() {
            Ok(value) => Ok((value, watched)),
            Err(e) => Err(e),
        }
    }
}

impl Default for Watcher {
    /// The same watcher [`Watcher::new`] makes.
    fn default() -> (r: Self)
        ensures
            r.update_type is Automatic,
            r.format is Json,
    {
        Watcher::new()
    }
}

} // verus!
