//! One configuration file under observation.
//!
//! A `WatchedFile` owns the path and declared format of a single file,
//! holds the callback registry, and makes every decision of the watch loop:
//! which handler an event goes to, whether an event triggers a refresh, and
//! what a refresh does to the shared cell.  Reading the file itself is the
//! job of an injected reader function, so the file system stays an external
//! collaborator with a stated contract.

use vstd::prelude::*;
use std::sync::Arc;
use vstd::rwlock::RwLock;
use crate::auto_updated::{AutoUpdated, Seeded};
use crate::error::{IoError, ReadError};
use crate::event::ChangeEvent;
use crate::format::FileFormat;
use crate::refresh::RefreshOutcome;
use crate::registry::CallbackRegistry;
use crate::reload::{parse_fails, parses_to, Reloadable};
use crate::watcher::UpdateType;

verus! {

/// What one dispatched event amounted to.
pub struct EventReport {
    /// `Some` when the event triggered a refresh, with the refresh's
    /// outcome; `None` when it did not (manual mode, or not a modify
    /// event).
    pub refresh: Option<RefreshOutcome>,
    /// Whether a registered callback fired for this event.
    pub handler_fired: bool,
}

/// A single file under observation, with its declared format, update mode,
/// registered callbacks and injected reader.
pub struct WatchedFile<F, R> {
    /// The path of the watched file.
    pub path: String,
    /// The format its content is decoded as.
    pub format: FileFormat,
    /// Whether modify events refresh implicitly or the caller drives
    /// refreshes explicitly.
    pub mode: UpdateType,
    /// The registered event handlers.
    pub registry: CallbackRegistry<F>,
    /// Reads the file at a given path; the file-system collaborator.
    pub reader: R,
}

impl<F: Fn(), R: Fn(&str) -> Result<String, IoError>> WatchedFile<F, R> {
    /// A well-formed watched file: every registered handler and the reader
    /// may be called.
    pub open spec fn wf(&self) -> bool {
        &&& self.registry.handlers_callable()
        &&& forall|p: &str| call_requires(self.reader, (p,))
    }

    /// Whether `r` is a possible result of asking this file's reader for
    /// this file's path.
    pub open spec fn read_outcome(&self, r: Result<String, IoError>) -> bool {
        exists|p: &str| p@ == self.path@ && call_ensures(self.reader, (p,), r)
    }

    /// This watched file with another declared format.
    pub open spec fn with_format(self, format: FileFormat) -> Self {
        WatchedFile {
            path: self.path,
            format,
            mode: self.mode,
            registry: self.registry,
            reader: self.reader,
        }
    }

    /// Put `file_path` under observation: JSON format and automatic updates
    /// until the builders say otherwise.  `reader` reads a path's content
    /// and is the only way this value ever touches the file system.
    pub fn new(file_path: String, reader: R) -> (r: Self)
        requires
            forall|p: &str| call_requires(reader, (p,)),
        ensures
            r.wf(),
            r.path == file_path,
            r.format is Json,
            r.mode is Automatic,
            r.registry.on_modify is None,
            r.registry.on_access is None,
            r.reader == reader,
    {
        WatchedFile {
            path: file_path,
            format: FileFormat::Json,
            mode: UpdateType::Automatic,
            registry: CallbackRegistry::new(),
            reader,
        }
    }

    /// Register `callback` for modify events; it replaces any previous
    /// registration, so only the latest handler fires on the next event.
    pub fn on_modify(&mut self, callback: F)
        requires
            old(self).wf(),
            call_requires(callback, ()),
        ensures
            final(self).registry == old(self).registry.with_modify(callback),
            final(self).path == old(self).path,
            final(self).format == old(self).format,
            final(self).mode == old(self).mode,
            final(self).reader == old(self).reader,
            final(self).wf(),
    {
        self.registry.set_modify(callback);
    }

    /// Register `callback` for access events; it replaces any previous
    /// registration.
    pub fn on_access(&mut self, callback: F)
        requires
            old(self).wf(),
            call_requires(callback, ()),
        ensures
            final(self).registry == old(self).registry.with_access(callback),
            final(self).path == old(self).path,
            final(self).format == old(self).format,
            final(self).mode == old(self).mode,
            final(self).reader == old(self).reader,
            final(self).wf(),
    {
        self.registry.set_access(callback);
    }

    /// The watched path.
    pub fn path(&self) -> (r: &str)
        ensures
            r@ == self.path@,
    {
        self.path.as_str()
    }

    /// Declare the file to be JSON.
    pub fn json(self) -> (r: Self)
        ensures
            r == self.with_format(FileFormat::Json),
    {
        self.format(FileFormat::Json)
    }

    /// Declare the file to be YAML.
    pub fn yaml(self) -> (r: Self)
        ensures
            r == self.with_format(FileFormat::Yaml),
    {
        self.format(FileFormat::Yaml)
    }

    /// Declare the file to be TOML.
    pub fn toml(self) -> (r: Self)
        ensures
            r == self.with_format(FileFormat::Toml),
    {
        self.format(FileFormat::Toml)
    }

    /// Declare the file's format explicitly.
    pub fn format(self, format: FileFormat) -> (r: Self)
        ensures
            r == self.with_format(format),
    {
        let mut r = self;
        r.format = format;
        r
    }

    /// Read the file's whole content through the injected reader.
    pub fn read_string(&self) -> (r: Result<String, IoError>)
        requires
            self.wf(),
        ensures
            self.read_outcome(r),
    {
        let p = self.path.as_str();
        let r = (self.reader)(p);
        proof {
            assert(p@ == self.path@ && call_ensures(self.reader, (p,), r));
        }
        r
    }

    /// Read the file and decode it under `format`, whatever format is
    /// declared.
    pub fn read_as<T: Reloadable>(&self, format: FileFormat) -> (r: Result<T, ReadError>)
        requires
            self.wf(),
        ensures
            r matches Ok(v) ==> exists|text: String|
                #[trigger] self.read_outcome(Ok(text)) && parses_to::<T>(format, text@, v),
            r matches Err(ReadError::Parse(_)) ==> exists|text: String|
                #[trigger] self.read_outcome(Ok(text)) && parse_fails::<T>(format, text@),
            r matches Err(ReadError::Io(e)) ==> self.read_outcome(Err(e)),
    {
        match self.read_string() {
            Ok(text) => {
                let parsed = T::parse_text(format, text.as_str());
                match parsed {
                    Ok(v) => Ok(v),
                    Err(e) => Err(ReadError::Parse(e)),
                }
            },
            Err(e) => Err(ReadError::Io(e)),
        }
    }

    /// Read the file and decode it under the declared format.
    pub fn read_typed<T: Reloadable>(&self) -> (r: Result<T, ReadError>)
        requires
            self.wf(),
        ensures
            r matches Ok(v) ==> exists|text: String|
                #[trigger] self.read_outcome(Ok(text)) && parses_to::<T>(self.format, text@, v),
            r matches Err(ReadError::Parse(_)) ==> exists|text: String|
                #[trigger] self.read_outcome(Ok(text)) && parse_fails::<T>(self.format, text@),
            r matches Err(ReadError::Io(e)) ==> self.read_outcome(Err(e)),
    {
        self.read_as::<T>(self.format)
    }

    /// Read the file and decode it as JSON, whatever format is declared.
    pub fn read_json<T: Reloadable>(&self) -> (r: Result<T, ReadError>)
        requires
            self.wf(),
        ensures
            r matches Ok(v) ==> exists|text: String|
                #[trigger] self.read_outcome(Ok(text)) && parses_to::<T>(FileFormat::Json, text@, v),
            r matches Err(ReadError::Parse(_)) ==> exists|text: String|
                #[trigger] self.read_outcome(Ok(text)) && parse_fails::<T>(FileFormat::Json, text@),
            r matches Err(ReadError::Io(e)) ==> self.read_outcome(Err(e)),
    {
        self.read_as::<T>(FileFormat::Json)
    }

    /// Read the file and decode it as YAML, whatever format is declared.
    pub fn read_yaml<T: Reloadable>(&self) -> (r: Result<T, ReadError>)
        requires
            self.wf(),
        ensures
            r matches Ok(v) ==> exists|text: String|
                #[trigger] self.read_outcome(Ok(text)) && parses_to::<T>(FileFormat::Yaml, text@, v),
            r matches Err(ReadError::Parse(_)) ==> exists|text: String|
                #[trigger] self.read_outcome(Ok(text)) && parse_fails::<T>(FileFormat::Yaml, text@),
            r matches Err(ReadError::Io(e)) ==> self.read_outcome(Err(e)),
    {
        self.read_as::<T>(FileFormat::Yaml)
    }

    /// Read the file and decode it as TOML, whatever format is declared.
    pub fn read_toml<T: Reloadable>(&self) -> (r: Result<T, ReadError>)
        requires
            self.wf(),
        ensures
            r matches Ok(v) ==> exists|text: String|
                #[trigger] self.read_outcome(Ok(text)) && parses_to::<T>(FileFormat::Toml, text@, v),
            r matches Err(ReadError::Parse(_)) ==> exists|text: String|
                #[trigger] self.read_outcome(Ok(text)) && parse_fails::<T>(FileFormat::Toml, text@),
            r matches Err(ReadError::Io(e)) ==> self.read_outcome(Err(e)),
    {
        self.read_as::<T>(FileFormat::Toml)
    }

    /// Read the file and decode it under the declared format through the
    /// serde-family decoders.  The decoders are trusted collaborators, so
    /// this contract pins down only where each error kind can come from:
    /// an I/O error is the reader's, anything else follows a completed
    /// read.
    pub fn read<T: serde::de::DeserializeOwned>(&self) -> (r: Result<T, ReadError>)
        requires
            self.wf(),
        ensures
            r matches Err(ReadError::Io(e)) ==> self.read_outcome(Err(e)),
            !(r matches Err(ReadError::Io(_))) ==> exists|text: String|
                #[trigger] self.read_outcome(Ok(text)),
    {
        match self.read_string() {
            Ok(text) => {
                match crate::codec::decode_str::<T>(text.as_str(), self.format) {
                    Ok(v) => Ok(v),
                    Err(e) => Err(ReadError::Parse(e)),
                }
            },
            Err(e) => Err(ReadError::Io(e)),
        }
    }

    /// Perform one refresh of `cell`, synchronously on the caller's
    /// context: read, decode, and overwrite the cell on success; on any
    /// failure the cell keeps its previous value.  This is the manual-mode
    /// refresh; it runs only when the caller asks for it.
    pub fn update<T: Reloadable>(&self, cell: &AutoUpdated<T>) -> (o: RefreshOutcome)
        requires
            self.wf(),
        ensures
            o is Updated ==> exists|text: String, v: T|
                self.read_outcome(Ok(text)) && #[trigger] parses_to::<T>(self.format, text@, v),
            o is KeptAfterParseError ==> exists|text: String|
                #[trigger] self.read_outcome(Ok(text)) && parse_fails::<T>(self.format, text@),
            o is KeptAfterIoError ==> exists|e: IoError| #[trigger] self.read_outcome(Err(e)),
    {
        let out = self.read_typed::<T>();
        cell.apply_refresh(out)
    }

    /// Decide and carry out everything one event calls for: in automatic
    /// mode a modify event refreshes `cell` first, then the registered
    /// handler for the event's kind fires.  In manual mode no event ever
    /// refreshes; refreshing is [`Self::update`]'s job alone.
    pub fn handle_event<T: Reloadable>(&self, event: &ChangeEvent, cell: &AutoUpdated<T>) -> (report:
        EventReport)
        requires
            self.wf(),
        ensures
            report.refresh is Some <==> (self.mode is Automatic && *event is Modified),
            self.mode is Manual ==> report.refresh is None,
            report.refresh matches Some(o) ==> {
                &&& o is Updated ==> exists|text: String, v: T|
                    self.read_outcome(Ok(text)) && #[trigger] parses_to::<T>(
                        self.format,
                        text@,
                        v,
                    )
                &&& o is KeptAfterParseError ==> exists|text: String|
                    #[trigger] self.read_outcome(Ok(text)) && parse_fails::<T>(
                        self.format,
                        text@,
                    )
                &&& o is KeptAfterIoError ==> exists|e: IoError| #[trigger] self.read_outcome(
                    Err(e),
                )
            },
            report.handler_fired == (self.registry.handler_for(*event) is Some),
            self.registry.handler_for(*event) matches Some(f) ==> call_ensures(f, (), ()),
    {
        let refresh = match (&self.mode, event.is_modified()) {
            (UpdateType::Automatic, true) => Some(self.update(cell)),
            _ => None,
        };
        let handler_fired = self.registry.invoke(event);
        EventReport { refresh, handler_fired }
    }

    /// Wrap `target` in a fresh shared cell for this file's refreshes to
    /// overwrite.
    pub fn auto_update<T: Reloadable>(&self, target: T) -> (r: AutoUpdated<T>)
        ensures
            r.seed() == target,
    {
        AutoUpdated::new(target)
    }

    /// Adopt an already shared cell for this file's refreshes to
    /// overwrite: the result references that very cell, so a refresh seen
    /// through it is seen through every other handle on the cell.
    pub fn auto_update_from<T: Reloadable>(&self, target: Arc<RwLock<T, Seeded<T>>>) -> (r:
        AutoUpdated<T>)
        ensures
            r.cell() == *target,
            r.seed() == (*target).pred().initial,
    {
        AutoUpdated::wrap(target)
    }

    /// Read and decode the file once to seed a fresh shared cell.  The
    /// seeding read's failure propagates: there is no previous good value
    /// to fall back on yet.
    pub fn auto_updated<T: Reloadable>(&self) -> (r: Result<AutoUpdated<T>, ReadError>)
        requires
            self.wf(),
        ensures
            r matches Ok(cell) ==> exists|text: String|
                #[trigger] self.read_outcome(Ok(text)) && parses_to::<T>(
                    self.format,
                    text@,
                    cell.seed(),
                ),
            r matches Err(ReadError::Parse(_)) ==> exists|text: String|
                #[trigger] self.read_outcome(Ok(text)) && parse_fails::<T>(self.format, text@),
            r matches Err(ReadError::Io(e)) ==> self.read_outcome(Err(e)),
    {
        match self.read_typed::<T>() {
            Ok(v) => Ok(self.auto_update(v)),
            Err(e) => Err(e),
        }
    }
}

} // verus!
