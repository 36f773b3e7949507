use buildkit_frontend::bridge::Bridge;
use buildkit_frontend::cache::{CacheOptionsEntry, CacheType};
use buildkit_frontend::error::ErrorCode;
use buildkit_frontend::proto::{
    BuildResult, FileRange, ReadFileResponse, SolveResponse, SolveResultVariant,
};
use buildkit_frontend::oci::{Architecture, ImageConfig, ImageSpecification, OperatingSystem};
use buildkit_frontend::session::Frame;
use buildkit_frontend::{terminal_request, FrontendOutput, OutputRef};

fn ref_response(reference: &str) -> SolveResponse {
    SolveResponse {
        result: Some(BuildResult {
            result: Some(SolveResultVariant::Ref(reference.to_string())),
            metadata: vec![],
        }),
    }
}

#[test]
fn solve_request_fields() {
    let cache = vec![CacheOptionsEntry {
        cache_type: CacheType::Registry,
        attrs: vec![("ref".to_string(), "example.com/repo:tag".to_string())],
    }];
    let request = Bridge::solve_request(vec![1, 2, 3], &cache);

    assert_eq!(request.definition, vec![1, 2, 3]);
    assert!(request.exporter_attr.is_empty());
    assert!(request.allow_result_return);
    assert_eq!(request.cache_imports.len(), 1);
    assert_eq!(request.cache_imports[0].cache_type, "registry");
    assert_eq!(
        request.cache_imports[0].attrs,
        vec![("ref".to_string(), "example.com/repo:tag".to_string())]
    );
}

#[test]
fn solve_extracts_reference() {
    let mut bridge = Bridge::new();
    let result = bridge.solve(Ok(ref_response("sha256:deadbeef")));
    let output = result.expect("reference variant should succeed");
    assert_eq!(output.0, "sha256:deadbeef");
}

#[test]
fn solve_rejects_missing_result_union() {
    let mut bridge = Bridge::new();
    let result = bridge.solve(Ok(SolveResponse { result: None }));
    let error = result.err().expect("missing result union must fail");
    assert_eq!(error.messages, vec!["Unable to extract solve result".to_string()]);

    let result = bridge.solve(Ok(SolveResponse {
        result: Some(BuildResult { result: None, metadata: vec![] }),
    }));
    let error = result.err().expect("missing inner result must fail");
    assert_eq!(error.messages, vec!["Unable to extract solve result".to_string()]);
}

#[test]
fn solve_rejects_unexpected_variant() {
    let mut bridge = Bridge::new();
    let result = bridge.solve(Ok(SolveResponse {
        result: Some(BuildResult {
            result: Some(SolveResultVariant::Refs(vec![(
                "linux/amd64".to_string(),
                "sha256:feed".to_string(),
            )])),
            metadata: vec![],
        }),
    }));
    let error = result.err().expect("non-reference variant must fail");
    assert_eq!(error.messages, vec!["Unexpected solve response".to_string()]);
}

#[test]
fn solve_wraps_transport_error() {
    let mut bridge = Bridge::new();
    let result = bridge.solve(Err("connection reset".to_string()));
    let error = result.err().expect("transport failure must fail");
    assert_eq!(
        error.messages,
        vec![
            "Unable to solve the graph".to_string(),
            "connection reset".to_string()
        ]
    );
}

#[test]
fn read_file_request_fields() {
    let layer = OutputRef("sha256:deadbeef".to_string());
    let request = Bridge::read_file_request(
        &layer,
        "/opt/out.txt".to_string(),
        Some(FileRange { offset: 4, length: 16 }),
    );

    assert_eq!(request.reference, "sha256:deadbeef");
    assert_eq!(request.file_path, "/opt/out.txt");
    assert_eq!(request.range, Some(FileRange { offset: 4, length: 16 }));
}

#[test]
fn read_file_wraps_transport_error() {
    let mut bridge = Bridge::new();
    let result = bridge.read_file(Err("broken pipe".to_string()));
    let error = result.err().expect("transport failure must fail");
    assert_eq!(
        error.messages,
        vec![
            "Unable to read the file".to_string(),
            "broken pipe".to_string()
        ]
    );
}

#[test]
fn resolve_image_config_request_defaults() {
    let request = Bridge::resolve_image_config_request("docker.io/library/alpine:latest".to_string(), None, None);

    assert_eq!(request.reference, "docker.io/library/alpine:latest");
    assert!(request.platform.is_none());
    assert_eq!(request.resolve_mode, "default");
    assert_eq!(request.log_name, "");

    let request = Bridge::resolve_image_config_request(
        "docker.io/library/alpine:latest".to_string(),
        Some("pull".to_string()),
        Some("resolving alpine".to_string()),
    );
    assert_eq!(request.resolve_mode, "pull");
    assert_eq!(request.log_name, "resolving alpine");
}

#[test]
fn image_config_decode_failure_is_contextualized() {
    let result = Bridge::image_config_decoded(Err("invalid JSON at line 1".to_string()));
    let error = result.err().expect("decode failure must fail");
    assert_eq!(
        error.messages,
        vec![
            "Unable to parse image specification".to_string(),
            "invalid JSON at line 1".to_string()
        ]
    );
}

#[test]
fn finish_with_error_status_fields() {
    let mut bridge = Bridge::new();
    let request = bridge.finish_with_error(ErrorCode::Unknown, "boom".to_string());

    assert!(request.result.is_none());
    let status = request.error.expect("error report carries a status");
    assert_eq!(status.code, 2);
    assert_eq!(status.message, "boom");
    assert!(status.details.is_empty());
    assert!(bridge.session.terminal_sent);
}

#[test]
fn end_to_end_scenario() {
    let mut bridge = Bridge::new();

    let graph_bytes = vec![0xde, 0xad];
    let solve_request = Bridge::solve_request(graph_bytes.clone(), &vec![]);
    assert_eq!(solve_request.definition, graph_bytes);
    assert!(solve_request.cache_imports.is_empty());

    let output = bridge
        .solve(Ok(ref_response("sha256:deadbeef")))
        .expect("mock solve succeeds");
    assert_eq!(output.0, "sha256:deadbeef");

    let read_request = Bridge::read_file_request(&output, "/opt/out.txt".to_string(), None);
    assert_eq!(read_request.reference, "sha256:deadbeef");
    assert_eq!(read_request.file_path, "/opt/out.txt");
    assert!(read_request.range.is_none());

    let data = bridge
        .read_file(Ok(ReadFileResponse { data: b"hello".to_vec() }))
        .expect("mock read succeeds");
    assert_eq!(data, b"hello".to_vec());

    let frontend_output = FrontendOutput::with_ref(output);
    let request = terminal_request(
        &mut bridge,
        Ok((frontend_output.output, None)),
    );

    let build_result = request.result.expect("success report carries a result");
    assert!(request.error.is_none());
    match build_result.result.expect("result union present") {
        SolveResultVariant::Ref(reference) => assert_eq!(reference, "sha256:deadbeef"),
        other => panic!("unexpected result variant: {:?}", other),
    }
    assert!(build_result.metadata.is_empty());

    assert_eq!(
        bridge.session.trace,
        vec![
            Frame::Request(0),
            Frame::Response(0),
            Frame::Request(1),
            Frame::Response(1),
            Frame::TerminalReturn,
        ]
    );
    let terminals = bridge
        .session
        .trace
        .iter()
        .filter(|frame| **frame == Frame::TerminalReturn)
        .count();
    assert_eq!(terminals, 1);
}

#[test]
fn with_spec_and_ref_keeps_both() {
    let mut config = ImageConfig::new();
    config.working_dir = Some("/opt".to_string());
    let image_spec = ImageSpecification {
        created: None,
        author: None,
        architecture: Architecture::Amd64,
        os: OperatingSystem::Linux,
        config: Some(config),
        rootfs: None,
        history: None,
    };

    let output = FrontendOutput::with_spec_and_ref(image_spec, OutputRef("r1".to_string()));
    assert_eq!(output.output.0, "r1");
    let kept = output.image_spec.expect("specification is kept");
    assert_eq!(kept.architecture, Architecture::Amd64);
    assert_eq!(kept.os, OperatingSystem::Linux);
    assert_eq!(kept.config.unwrap().working_dir, Some("/opt".to_string()));

    let bare = FrontendOutput::with_ref(OutputRef("r2".to_string()));
    assert_eq!(bare.output.0, "r2");
    assert!(bare.image_spec.is_none());
}

#[test]
fn success_report_carries_config_metadata() {
    let mut bridge = Bridge::new();
    let request = bridge.finish_with_success(
        OutputRef("sha256:cafe".to_string()),
        Some(b"{\"os\":\"linux\"}".to_vec()),
    );

    assert!(request.error.is_none());
    let build_result = request.result.expect("result present");
    assert_eq!(
        build_result.metadata,
        vec![(
            "containerimage.config".to_string(),
            b"{\"os\":\"linux\"}".to_vec()
        )]
    );
    assert!(bridge.session.terminal_sent);
}
