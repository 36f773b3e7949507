//! The wire shape of the orchestrator's four-operation protocol: the request
//! and response messages that the bridge builds and interprets. The transport
//! that frames and carries them lives outside the library.

use vstd::prelude::*;
use crate::cache::CacheOptionsEntryWire;

verus! {

/// An optional byte-range restriction for a file read; absent means the
/// whole file.
#[derive(Clone, Copy, Debug, PartialEq, Eq, Structural)]
pub struct FileRange {
    pub offset: i64,
    pub length: i64,
}

/// A request to solve a build graph. The definition blob is opaque,
/// pre-serialized by the graph-construction collaborator and transmitted
/// verbatim.
#[derive(Clone, Debug)]
pub struct SolveRequest {
    pub definition: Vec<u8>,
    pub exporter_attr: Vec<u8>,
    pub allow_result_return: bool,
    pub cache_imports: Vec<CacheOptionsEntryWire>,
}

/// The result union inside a solve or terminal result message: either a
/// single reference to a solved result, or a per-platform map of references.
#[derive(Clone, Debug, PartialEq)]
pub enum SolveResultVariant {
    Ref(String),
    Refs(Vec<(String, String)>),
}

/// The protocol's result message: an optional result union plus a metadata
/// mapping of string keys to raw bytes.
#[derive(Clone, Debug)]
pub struct BuildResult {
    pub result: Option<SolveResultVariant>,
    pub metadata: Vec<(String, Vec<u8>)>,
}

/// The response to a solve request.
#[derive(Clone, Debug)]
pub struct SolveResponse {
    pub result: Option<BuildResult>,
}

/// A request to read a file out of a previously solved result. The
/// `reference` field carries the orchestrator-issued result handle (the wire
/// field named `ref`).
#[derive(Clone, Debug)]
pub struct ReadFileRequest {
    pub reference: String,
    pub file_path: String,
    pub range: Option<FileRange>,
}

/// The response to a file read: the file's bytes, restricted to the
/// requested range if one was given.
#[derive(Clone, Debug)]
pub struct ReadFileResponse {
    pub data: Vec<u8>,
}

/// A request to resolve an external image's configuration. The `reference`
/// field carries the image's canonical name (the wire field named `ref`).
#[derive(Clone, Debug)]
pub struct ResolveImageConfigRequest {
    pub reference: String,
    pub platform: Option<PlatformWire>,
    pub resolve_mode: String,
    pub log_name: String,
}

/// A platform selector on the wire.
#[derive(Clone, Debug)]
pub struct PlatformWire {
    pub architecture: String,
    pub os: String,
}

/// The response to an image-configuration resolution: the image's digest and
/// its raw, JSON-encoded configuration bytes.
#[derive(Clone, Debug)]
pub struct ResolveImageConfigResponse {
    pub digest: String,
    pub config: Vec<u8>,
}

/// A failure status in the orchestrator's standard status-code space.
#[derive(Clone, Debug)]
pub struct StatusWire {
    pub code: i32,
    pub message: String,
    pub details: Vec<Vec<u8>>,
}

/// The single terminal report: exactly one of `result` and `error` is set.
#[derive(Clone, Debug)]
pub struct ReturnRequest {
    pub result: Option<BuildResult>,
    pub error: Option<StatusWire>,
}

impl ReturnRequest {
    /// A terminal report carries a result or an error, never both and never
    /// neither.
    pub open spec fn wf(&self) -> bool {
        self.result is Some <==> self.error is None
    }
}

} // verus!
