//! The protocol bridge: the client side of the orchestrator's four-operation
//! protocol. The bridge builds each request, interprets each response, and
//! keeps the wire-level bookkeeping — serialized round trips and the
//! exactly-once terminal report — in its session record.
//!
//! The transport that actually carries a request and brings its response
//! back lives outside the library; each operation here takes the transport's
//! outcome as an argument and states what the bridge returns for every value
//! of it.

use vstd::prelude::*;
use crate::OutputRef;
use crate::cache::CacheOptionsEntry;
use crate::error::{ErrorCode, FrontendError, spec_code_number};
use crate::oci::ImageSpecification;
use crate::proto::{
    BuildResult,
    FileRange,
    ReadFileRequest,
    ReadFileResponse,
    ResolveImageConfigRequest,
    ResolveImageConfigResponse,
    ReturnRequest,
    SolveRequest,
    SolveResponse,
    SolveResultVariant,
    StatusWire,
};
use crate::session::{Frame, Session};

verus! {

/// The reference inside a solve response, if the response carries the
/// expected result union with the reference variant.
pub open spec fn spec_solve_ref(resp: SolveResponse) -> Option<Seq<char>> {
    match resp.result {
        Some(build_result) => match build_result.result {
            Some(SolveResultVariant::Ref(s)) => Some(s@),
            _ => None,
        },
        None => None,
    }
}

/// The bridge client over one connection. All callers share it; its session
/// records every frame that enters the wire.
#[derive(Clone, Debug)]
pub struct Bridge {
    pub session: Session,
}

impl Bridge {
    pub open spec fn wf(&self) -> bool {
        self.session.wf()
    }

    /// A bridge over a fresh connection.
    pub fn new() -> (b: Bridge)
        ensures
            b.wf(),
            b.session.round_trips == 0,
            !b.session.terminal_sent,
    {
        Bridge { session: Session::new() }
    }

    /// Builds the request that submits a build graph: the opaque definition
    /// blob verbatim, no exporter attributes, a direct result reference
    /// requested, and each cache source in its wire form.
    pub fn solve_request(graph: Vec<u8>, cache: &Vec<CacheOptionsEntry>) -> (r: SolveRequest)
        ensures
            r.definition@ == graph@,
            r.exporter_attr@ == Seq::<u8>::empty(),
            r.allow_result_return,
            r.cache_imports@.len() == cache@.len(),
            forall|i: int|
                0 <= i < cache@.len() ==> CacheOptionsEntry::encodes(
                    cache@[i],
                    #[trigger] r.cache_imports@[i],
                ),
    {
        let mut cache_imports = Vec::new();
        let mut i: usize = 0;
        while i < cache.len()
            invariant
                i <= cache.len(),
                cache_imports@.len() == i,
                forall|k: int|
                    0 <= k < i ==> CacheOptionsEntry::encodes(
                        cache@[k],
                        #[trigger] cache_imports@[k],
                    ),
            decreases cache.len() - i,
        {
            cache_imports.push(cache[i].to_wire());
            i = i + 1;
        }
        SolveRequest {
            definition: graph,
            exporter_attr: Vec::new(),
            allow_result_return: true,
            cache_imports,
        }
    }

    /// Submits a build graph: records the round trip and interprets the
    /// response. Succeeds exactly when the response arrived and carries the
    /// result union with the reference variant; a response without a result
    /// union, or with any other variant, is an unexpected-response failure.
    pub fn solve(&mut self, resp: Result<SolveResponse, String>) -> (r: Result<
        OutputRef,
        FrontendError,
    >)
        requires
            old(self).wf(),
            !old(self).session.terminal_sent,
            old(self).session.round_trips < u64::MAX,
        ensures
            final(self).wf(),
            !final(self).session.terminal_sent,
            final(self).session.round_trips == old(self).session.round_trips + 1,
            final(self).session.trace@ == old(self).session.trace@ + seq![
                Frame::Request(old(self).session.round_trips),
                Frame::Response(old(self).session.round_trips),
            ],
            match resp {
                Ok(response) => match spec_solve_ref(response) {
                    Some(reference) => r matches Ok(out) && out.0@ == reference,
                    None => r matches Err(e) && e.wf() && e.messages.deep_view() == (
                    if response.result is None || (response.result matches Some(br)
                        && br.result is None) {
                        seq!["Unable to extract solve result"@]
                    } else {
                        seq!["Unexpected solve response"@]
                    }),
                },
                Err(m) => r matches Err(e) && e.wf() && e.messages.deep_view() == seq![
                    "Unable to solve the graph"@,
                    m@,
                ],
            },
    {
        self.session.round_trip();
        match resp {
            Ok(response) => match response.result {
                Some(build_result) => match build_result.result {
                    Some(SolveResultVariant::Ref(reference)) => Ok(OutputRef(reference)),
                    Some(SolveResultVariant::Refs(_)) => Err(
                        FrontendError::new("Unexpected solve response".to_owned()),
                    ),
                    None => Err(FrontendError::new("Unable to extract solve result".to_owned())),
                },
                None => Err(FrontendError::new("Unable to extract solve result".to_owned())),
            },
            Err(m) => Err(FrontendError::new(m).context("Unable to solve the graph".to_owned())),
        }
    }

    /// Builds the request that reads a file out of a solved result; the
    /// path is already in its orchestrator-facing string form, and the
    /// range, if given, restricts the returned bytes.
    pub fn read_file_request(layer: &OutputRef, file_path: String, range: Option<FileRange>) -> (r:
        ReadFileRequest)
        ensures
            r.reference@ == layer.0@,
            r.file_path@ == file_path@,
            r.range == range,
    {
        ReadFileRequest { reference: layer.0.clone(), file_path, range }
    }

    /// Reads a file out of a solved result: records the round trip and
    /// interprets the response. Succeeds exactly when the response arrived,
    /// handing back its bytes verbatim.
    pub fn read_file(&mut self, resp: Result<ReadFileResponse, String>) -> (r: Result<
        Vec<u8>,
        FrontendError,
    >)
        requires
            old(self).wf(),
            !old(self).session.terminal_sent,
            old(self).session.round_trips < u64::MAX,
        ensures
            final(self).wf(),
            !final(self).session.terminal_sent,
            final(self).session.round_trips == old(self).session.round_trips + 1,
            final(self).session.trace@ == old(self).session.trace@ + seq![
                Frame::Request(old(self).session.round_trips),
                Frame::Response(old(self).session.round_trips),
            ],
            match resp {
                Ok(response) => r matches Ok(data) && data@ == response.data@,
                Err(m) => r matches Err(e) && e.wf() && e.messages.deep_view() == seq![
                    "Unable to read the file"@,
                    m@,
                ],
            },
    {
        self.session.round_trip();
        match resp {
            Ok(response) => Ok(response.data),
            Err(m) => Err(FrontendError::new(m).context("Unable to read the file".to_owned())),
        }
    }

    /// Builds the request that resolves an external image's configuration:
    /// the image's canonical reference, no platform selector, the resolve
    /// mode or its fixed default, and the optional progress label.
    pub fn resolve_image_config_request(
        reference: String,
        resolve_mode: Option<String>,
        log: Option<String>,
    ) -> (r: ResolveImageConfigRequest)
        ensures
            r.reference@ == reference@,
            r.platform is None,
            r.resolve_mode@ == match resolve_mode {
                Some(m) => m@,
                None => "default"@,
            },
            r.log_name@ == match log {
                Some(l) => l@,
                None => ""@,
            },
    {
        ResolveImageConfigRequest {
            reference,
            platform: None,
            resolve_mode: match resolve_mode {
                Some(m) => m,
                None => "default".to_owned(),
            },
            log_name: match log {
                Some(l) => l,
                None => "".to_owned(),
            },
        }
    }

    /// Resolves an external image's configuration: records the round trip
    /// and interprets the response. Succeeds exactly when the response
    /// arrived, handing back the digest and the raw configuration bytes for
    /// decoding.
    pub fn resolve_image_config(&mut self, resp: Result<ResolveImageConfigResponse, String>) -> (r:
        Result<(String, Vec<u8>), FrontendError>)
        requires
            old(self).wf(),
            !old(self).session.terminal_sent,
            old(self).session.round_trips < u64::MAX,
        ensures
            final(self).wf(),
            !final(self).session.terminal_sent,
            final(self).session.round_trips == old(self).session.round_trips + 1,
            final(self).session.trace@ == old(self).session.trace@ + seq![
                Frame::Request(old(self).session.round_trips),
                Frame::Response(old(self).session.round_trips),
            ],
            match resp {
                Ok(response) => r matches Ok(pair) && pair.0@ == response.digest@ && pair.1@
                    == response.config@,
                Err(m) => r matches Err(e) && e.wf() && e.messages.deep_view() == seq![m@],
            },
    {
        self.session.round_trip();
        match resp {
            Ok(response) => Ok((response.digest, response.config)),
            Err(m) => Err(FrontendError::new(m)),
        }
    }

    /// Maps the decoding of the resolved configuration bytes: a decoded
    /// specification passes through; malformed image metadata is a hard
    /// error carrying the decoder's message behind a fixed context.
    pub fn image_config_decoded(decoded: Result<ImageSpecification, String>) -> (r: Result<
        ImageSpecification,
        FrontendError,
    >)
        ensures
            match decoded {
                Ok(image_spec) => r matches Ok(out) && out == image_spec,
                Err(m) => r matches Err(e) && e.wf() && e.messages.deep_view() == seq![
                    "Unable to parse image specification"@,
                    m@,
                ],
            },
    {
        match decoded {
            Ok(image_spec) => Ok(image_spec),
            Err(m) => Err(
                FrontendError::new(m).context("Unable to parse image specification".to_owned()),
            ),
        }
    }

    /// Builds and records the successful terminal report: the result union
    /// carries the output reference, and the metadata holds the serialized
    /// image configuration under the well-known key if one was produced.
    /// The session accepts no second terminal report.
    pub fn finish_with_success(&mut self, output: OutputRef, config_json: Option<Vec<u8>>) -> (r:
        ReturnRequest)
        requires
            old(self).wf(),
            !old(self).session.terminal_sent,
        ensures
            final(self).wf(),
            final(self).session.terminal_sent,
            final(self).session.round_trips == old(self).session.round_trips,
            final(self).session.trace@ == old(self).session.trace@.push(Frame::TerminalReturn),
            r.wf(),
            r.error is None,
            r.result matches Some(br) && br.result matches Some(v) && v matches
                SolveResultVariant::Ref(s) && s@ == output.0@ && br.metadata.deep_view() == match config_json {
                Some(bytes) => seq![("containerimage.config"@, bytes@)],
                None => Seq::<(Seq<char>, Seq<u8>)>::empty(),
            },
    {
        self.session.send_terminal();
        let mut metadata: Vec<(String, Vec<u8>)> = Vec::new();
        match config_json {
            Some(bytes) => {
                metadata.push(("containerimage.config".to_owned(), bytes));
                proof {
                    assert(metadata.deep_view() =~~= seq![
                        ("containerimage.config"@, config_json->Some_0@),
                    ]);
                }
            },
            None => {
                proof {
                    assert(metadata.deep_view() =~= Seq::<(Seq<char>, Seq<u8>)>::empty());
                }
            },
        }
        ReturnRequest {
            result: Some(
                BuildResult { result: Some(SolveResultVariant::Ref(output.0)), metadata },
            ),
            error: None,
        }
    }

    /// Builds and records the failing terminal report: the failure status
    /// carries the given code's wire number, the single-line message, and no
    /// structured details. The session accepts no second terminal report.
    pub fn finish_with_error(&mut self, code: ErrorCode, message: String) -> (r: ReturnRequest)
        requires
            old(self).wf(),
            !old(self).session.terminal_sent,
        ensures
            final(self).wf(),
            final(self).session.terminal_sent,
            final(self).session.round_trips == old(self).session.round_trips,
            final(self).session.trace@ == old(self).session.trace@.push(Frame::TerminalReturn),
            r.wf(),
            r.result is None,
            r.error matches Some(st) && st.code == spec_code_number(code) && st.message@
                == message@ && st.details@.len() == 0,
    {
        self.session.send_terminal();
        ReturnRequest {
            result: None,
            error: Some(StatusWire { code: code.number(), message, details: Vec::new() }),
        }
    }
}

} // verus!
