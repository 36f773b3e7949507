//! Client-side support for a pluggable build frontend: the protocol bridge
//! that a build orchestrator drives over the process's standard streams.
//!
//! The crate models the bridge protocol itself — request construction,
//! response interpretation, cache-import encoding, option lookup, error-chain
//! rendering, and the exactly-once terminal report — as verified functions on
//! plain values. The asynchronous transport that carries the frames lives
//! outside the library.

use vstd::prelude::*;

pub mod bridge;
pub mod cache;
pub mod error;
pub mod oci;
pub mod options;
pub mod proto;
pub mod session;
pub mod stdio;

use crate::bridge::Bridge;
use crate::error::{ErrorCode, ErrorWithCauses, FrontendError, join_with};
use crate::oci::ImageSpecification;
use crate::proto::ReturnRequest;

verus! {

/// An opaque, orchestrator-issued handle identifying a solved build result.
#[derive(Clone, Debug)]
pub struct OutputRef(pub String);

/// What caller logic hands back when it finishes successfully: the solved
/// result's reference, and optionally an image configuration to publish with
/// it.
#[derive(Clone, Debug)]
pub struct FrontendOutput {
    pub output: OutputRef,
    pub image_spec: Option<ImageSpecification>,
}

impl FrontendOutput {
    /// A successful outcome carrying only the solved result's reference.
    pub fn with_ref(output: OutputRef) -> (r: FrontendOutput)
        ensures
            r.output == output,
            r.image_spec is None,
    {
        FrontendOutput { output, image_spec: None }
    }

    /// A successful outcome carrying the solved result's reference and an
    /// image configuration.
    pub fn with_spec_and_ref(image_spec: ImageSpecification, output: OutputRef) -> (r:
        FrontendOutput)
        ensures
            r.output == output,
            r.image_spec matches Some(s) && s == image_spec,
    {
        FrontendOutput { output, image_spec: Some(image_spec) }
    }
}

/// Sends the one terminal report for a finished run of caller logic: a
/// success carries the output reference and the serialized image
/// configuration, if any, under the well-known metadata key; a failure
/// carries the unknown status code and the flattened single-line rendering
/// of its cause chain. Exactly one report enters the wire, whatever the
/// outcome.
pub fn terminal_request(bridge: &mut Bridge, outcome: Result<
    (OutputRef, Option<Vec<u8>>),
    FrontendError,
>) -> (r: ReturnRequest)
    requires
        old(bridge).wf(),
        !old(bridge).session.terminal_sent,
        outcome matches Err(e) ==> e.wf(),
    ensures
        final(bridge).wf(),
        final(bridge).session.terminal_sent,
        final(bridge).session.round_trips == old(bridge).session.round_trips,
        r.wf(),
        r.result is Some <==> outcome is Ok,
        match outcome {
            Ok(success) => r.result matches Some(br) && br.result matches Some(v) && (v matches
            crate::proto::SolveResultVariant::Ref(s) && s@ == success.0.0@) && br.metadata.deep_view()
                == match success.1 {
                Some(bytes) => seq![("containerimage.config"@, bytes@)],
                None => Seq::<(Seq<char>, Seq<u8>)>::empty(),
            },
            Err(e) => r.error matches Some(st) && st.code == crate::error::spec_code_number(
                ErrorCode::Unknown,
            ) && st.message@ == join_with(e.messages.deep_view(), seq![':', ' '])
                && st.details@.len() == 0,
        },
{
    match outcome {
        Ok((output, config_json)) => bridge.finish_with_success(output, config_json),
        Err(error) => {
            let rendered = ErrorWithCauses::single_line(error).render();
            bridge.finish_with_error(ErrorCode::Unknown, rendered)
        },
    }
}

/// The process's exit status: zero exactly when caller logic succeeded and
/// its terminal report was delivered.
pub fn exit_status(caller_succeeded: bool, return_delivered: bool) -> (c: i32)
    ensures
        (c == 0) <==> (caller_succeeded && return_delivered),
{
    if caller_succeeded && return_delivered {
        0
    } else {
        1
    }
}

} // verus!
