use tonic::status::{infer_grpc_status, Code, Trailers};

#[test]
fn code_from_u32_maps_the_known_range() {
    assert_eq!(Code::from_u32(0), Code::Okay);
    assert_eq!(Code::from_u32(1), Code::Cancelled);
    assert_eq!(Code::from_u32(2), Code::Unknown);
    assert_eq!(Code::from_u32(3), Code::InvalidArgument);
    assert_eq!(Code::from_u32(4), Code::DeadlineExceeded);
    assert_eq!(Code::from_u32(5), Code::NotFound);
    assert_eq!(Code::from_u32(6), Code::AlreadyExists);
    assert_eq!(Code::from_u32(7), Code::PermissionDenied);
    assert_eq!(Code::from_u32(8), Code::ResourceExhausted);
    assert_eq!(Code::from_u32(9), Code::FailedPrecondition);
    assert_eq!(Code::from_u32(10), Code::Aborted);
    assert_eq!(Code::from_u32(11), Code::OutOfRange);
    assert_eq!(Code::from_u32(12), Code::Unimplemented);
    assert_eq!(Code::from_u32(13), Code::Internal);
    assert_eq!(Code::from_u32(14), Code::Unavailable);
    assert_eq!(Code::from_u32(15), Code::DataLoss);
    assert_eq!(Code::from_u32(16), Code::Unauthenticated);
    assert_eq!(Code::from_u32(17), Code::Unknown);
    assert_eq!(Code::from_u32(1000), Code::Unknown);
}

#[test]
fn code_from_http_maps_transport_statuses() {
    assert_eq!(Code::from_http(400), Code::Internal);
    assert_eq!(Code::from_http(401), Code::Unauthenticated);
    assert_eq!(Code::from_http(403), Code::PermissionDenied);
    assert_eq!(Code::from_http(404), Code::Unimplemented);
    assert_eq!(Code::from_http(429), Code::Unavailable);
    assert_eq!(Code::from_http(502), Code::Unavailable);
    assert_eq!(Code::from_http(503), Code::Unavailable);
    assert_eq!(Code::from_http(504), Code::Unavailable);
    assert_eq!(Code::from_http(200), Code::Unknown);
}

#[test]
fn zero_status_is_success() {
    let t = Trailers {
        status: Some(0),
        message: Some("ignored".to_string()),
    };
    assert!(infer_grpc_status(&Some(t), 200).is_ok());
}

#[test]
fn nonzero_status_is_that_failure() {
    let t = Trailers {
        status: Some(7),
        message: Some("denied".to_string()),
    };
    let st = infer_grpc_status(&Some(t), 200).unwrap_err();
    assert_eq!(st.code, Code::PermissionDenied);
    assert_eq!(st.message, "denied");
}

#[test]
fn nonzero_status_without_message_has_empty_message() {
    let t = Trailers {
        status: Some(13),
        message: None,
    };
    let st = infer_grpc_status(&Some(t), 200).unwrap_err();
    assert_eq!(st.code, Code::Internal);
    assert_eq!(st.message, "");
}

#[test]
fn missing_status_field_is_a_violation() {
    let t = Trailers {
        status: None,
        message: Some("no status here".to_string()),
    };
    let st = infer_grpc_status(&Some(t), 401).unwrap_err();
    assert_eq!(st.code, Code::Unauthenticated);
    assert_eq!(st.message, "grpc-status header missing");
}

#[test]
fn missing_trailers_are_a_violation() {
    let st = infer_grpc_status(&None, 503).unwrap_err();
    assert_eq!(st.code, Code::Unavailable);
    assert_eq!(st.message, "grpc-status header missing");
}
