use opentelemetry_proto::tonic::collector::trace::v1::ExportTracePartialSuccess;
use opentelemetry_proto::tonic::collector::trace::v1::ExportTraceServiceResponse;
use otlp_trace_client::error::ExportError;
use otlp_trace_client::exporter::TonicTracesClient;
use otlp_trace_client::reply::conclude;
use otlp_trace_client::reply::settle;
use otlp_trace_client::reply::PartialSuccess;
use otlp_trace_client::wire::BoxInterceptor;
use tonic::transport::Endpoint;
use tonic::Code;
use tonic::Request;
use tonic::Response;
use tonic::Status;

fn response(partial_success: Option<ExportTracePartialSuccess>) -> Response<ExportTraceServiceResponse> {
    Response::new(ExportTraceServiceResponse { partial_success })
}

#[test]
fn full_success_has_no_note() {
    let outcome = conclude(Ok(response(None)));
    assert!(matches!(outcome, Ok(None)));
}

#[test]
fn partial_success_is_still_success() {
    let outcome = conclude(Ok(response(Some(ExportTracePartialSuccess {
        rejected_spans: 3,
        error_message: "too many attributes".to_string(),
    }))));
    match outcome {
        Ok(Some(note)) => {
            assert_eq!(note.rejected_spans, 3);
            assert_eq!(note.error_message, "too many attributes");
        }
        _ => panic!("rejected spans should not fail the call"),
    }
}

#[test]
fn note_with_warning_only_is_reported() {
    let outcome = conclude(Ok(response(Some(ExportTracePartialSuccess {
        rejected_spans: 0,
        error_message: "consider batching".to_string(),
    }))));
    match outcome {
        Ok(Some(note)) => {
            assert_eq!(note.rejected_spans, 0);
            assert_eq!(note.error_message, "consider batching");
        }
        _ => panic!("a warning should not fail the call"),
    }
}

#[test]
fn rejected_count_is_handed_on_exactly() {
    for count in [1i64, 2, 1000, i64::MAX, -1] {
        let outcome = conclude(Ok(response(Some(ExportTracePartialSuccess {
            rejected_spans: count,
            error_message: String::new(),
        }))));
        assert_eq!(outcome.unwrap().unwrap().rejected_spans, count);
    }
}

#[test]
fn transport_failure_keeps_cause() {
    let outcome = conclude(Err(Status::unavailable("connection refused")));
    match outcome {
        Err(ExportError::TransportError(status)) => {
            assert_eq!(status.code(), Code::Unavailable);
            assert_eq!(status.message(), "connection refused");
        }
        _ => panic!("a failed RPC should fail the call"),
    }
}

#[test]
fn deadline_and_server_errors_are_transport_errors() {
    for cause in [Status::deadline_exceeded("late"), Status::internal("boom")] {
        let code = cause.code();
        match conclude(Err(cause)) {
            Err(ExportError::TransportError(status)) => assert_eq!(status.code(), code),
            _ => panic!("a failed RPC should fail the call"),
        }
    }
}

#[test]
fn transport_failure_leaves_the_exporter_active() {
    let rt = tokio::runtime::Builder::new_current_thread().build().unwrap();
    let _guard = rt.enter();
    let channel = Endpoint::from_static("http://127.0.0.1:4317").connect_lazy();
    let interceptor = BoxInterceptor::new(|request: Request<()>| Ok(request));
    let mut exporter = TonicTracesClient::new(channel, interceptor, None);
    let _call = exporter.prepare().unwrap();
    let outcome = conclude(Err(Status::unavailable("down")));
    assert!(matches!(outcome, Err(ExportError::TransportError(_))));
    assert!(!exporter.is_shut_down());
    assert!(exporter.prepare().is_ok());
}

#[test]
fn settle_hands_the_note_on() {
    let note = PartialSuccess { rejected_spans: 4, error_message: "why".to_string() };
    match settle(Ok(Some(note))) {
        Ok(Some(found)) => {
            assert_eq!(found.rejected_spans, 4);
            assert_eq!(found.error_message, "why");
        }
        _ => panic!("an answered call has succeeded"),
    }
    assert!(matches!(settle(Ok(None)), Ok(None)));
}

#[test]
fn settle_wraps_the_failure() {
    match settle(Err(Status::cancelled("stop"))) {
        Err(ExportError::TransportError(status)) => {
            assert_eq!(status.code(), Code::Cancelled);
            assert_eq!(status.message(), "stop");
        }
        _ => panic!("a failed RPC should fail the call"),
    }
}
