use otlp_trace_client::error::ExportError;
use otlp_trace_client::error::SHUT_DOWN_MESSAGE;
use otlp_trace_client::exporter::grant;
use otlp_trace_client::exporter::TonicTracesClient;
use otlp_trace_client::wire::BoxInterceptor;
use std::sync::atomic::AtomicUsize;
use std::sync::atomic::Ordering;
use std::sync::Arc;
use tonic::codec::CompressionEncoding;
use tonic::metadata::MetadataValue;
use tonic::transport::Channel;
use tonic::transport::Endpoint;
use tonic::Code;
use tonic::Request;
use tonic::Status;

fn runtime() -> tokio::runtime::Runtime {
    tokio::runtime::Builder::new_current_thread().build().unwrap()
}

fn lazy_channel() -> Channel {
    Endpoint::from_static("http://127.0.0.1:4317").connect_lazy()
}

/// An interceptor that lets every call through and counts them.
fn counting(calls: Arc<AtomicUsize>) -> BoxInterceptor {
    BoxInterceptor::new(move |request: Request<()>| {
        calls.fetch_add(1, Ordering::SeqCst);
        Ok(request)
    })
}

/// An interceptor that refuses every call and counts them.
fn refusing(calls: Arc<AtomicUsize>) -> BoxInterceptor {
    BoxInterceptor::new(move |_request: Request<()>| {
        calls.fetch_add(1, Ordering::SeqCst);
        Err(Status::unauthenticated("no token"))
    })
}

#[test]
fn new_exporter_is_active() {
    let rt = runtime();
    let _guard = rt.enter();
    let calls = Arc::new(AtomicUsize::new(0));
    let exporter = TonicTracesClient::new(lazy_channel(), counting(calls.clone()), None);
    assert!(!exporter.is_shut_down());
    assert_eq!(calls.load(Ordering::SeqCst), 0);
}

#[test]
fn prepare_on_active_exporter_asks_the_interceptor_once() {
    let rt = runtime();
    let _guard = rt.enter();
    let calls = Arc::new(AtomicUsize::new(0));
    let mut exporter = TonicTracesClient::new(lazy_channel(), counting(calls.clone()), None);
    let outcome = exporter.prepare();
    assert!(outcome.is_ok());
    assert_eq!(calls.load(Ordering::SeqCst), 1);
    assert!(!exporter.is_shut_down());
}

#[test]
fn export_after_shutdown_is_turned_away() {
    let rt = runtime();
    let _guard = rt.enter();
    let calls = Arc::new(AtomicUsize::new(0));
    let mut exporter = TonicTracesClient::new(lazy_channel(), counting(calls.clone()), None);
    exporter.shutdown();
    assert!(exporter.is_shut_down());
    let outcome = exporter.prepare();
    assert!(matches!(outcome, Err(ExportError::AlreadyShutDown)));
    assert_eq!(calls.load(Ordering::SeqCst), 0);
    // and for good
    assert!(matches!(exporter.prepare(), Err(ExportError::AlreadyShutDown)));
    assert!(exporter.is_shut_down());
    assert_eq!(calls.load(Ordering::SeqCst), 0);
}

#[test]
fn shutdown_twice_is_shutdown_once() {
    let rt = runtime();
    let _guard = rt.enter();
    let calls = Arc::new(AtomicUsize::new(0));
    let mut once = TonicTracesClient::new(lazy_channel(), counting(calls.clone()), None);
    let mut twice = TonicTracesClient::new(lazy_channel(), counting(calls.clone()), None);
    once.shutdown();
    twice.shutdown();
    twice.shutdown();
    assert_eq!(once.is_shut_down(), twice.is_shut_down());
    assert!(twice.is_shut_down());
    assert!(matches!(once.prepare(), Err(ExportError::AlreadyShutDown)));
    assert!(matches!(twice.prepare(), Err(ExportError::AlreadyShutDown)));
    assert_eq!(calls.load(Ordering::SeqCst), 0);
}

#[test]
fn shutdown_releases_the_session() {
    let rt = runtime();
    let _guard = rt.enter();
    let held = Arc::new(AtomicUsize::new(0));
    let mut exporter = TonicTracesClient::new(lazy_channel(), counting(held.clone()), None);
    assert_eq!(Arc::strong_count(&held), 2);
    exporter.shutdown();
    assert_eq!(Arc::strong_count(&held), 1);
}

#[test]
fn interceptor_failure_ends_the_call() {
    let rt = runtime();
    let _guard = rt.enter();
    let calls = Arc::new(AtomicUsize::new(0));
    let mut exporter = TonicTracesClient::new(lazy_channel(), refusing(calls.clone()), None);
    let outcome = exporter.prepare();
    match outcome {
        Err(ExportError::InterceptorError(status)) => {
            assert_eq!(status.code(), Code::Unauthenticated);
            assert_eq!(status.message(), "no token");
        }
        _ => panic!("the call should have ended with the interceptor's refusal"),
    }
    assert_eq!(calls.load(Ordering::SeqCst), 1);
    // a refusal is no shutdown
    assert!(!exporter.is_shut_down());
    assert!(matches!(exporter.prepare(), Err(ExportError::InterceptorError(_))));
    assert_eq!(calls.load(Ordering::SeqCst), 2);
}

#[test]
fn interceptor_sees_a_fresh_empty_envelope_each_time() {
    let rt = runtime();
    let _guard = rt.enter();
    let calls = Arc::new(AtomicUsize::new(0));
    let seen = calls.clone();
    let interceptor = BoxInterceptor::new(move |mut request: Request<()>| {
        assert!(request.metadata().is_empty());
        seen.fetch_add(1, Ordering::SeqCst);
        request.metadata_mut().insert("authorization", MetadataValue::from_static("Bearer t"));
        Ok(request)
    });
    let mut exporter = TonicTracesClient::new(lazy_channel(), interceptor, None);
    let first = exporter.prepare().unwrap();
    let second = exporter.prepare().unwrap();
    assert_eq!(calls.load(Ordering::SeqCst), 2);
    assert_eq!(first.metadata.get("authorization").unwrap(), "Bearer t");
    assert_eq!(second.metadata.get("authorization").unwrap(), "Bearer t");
    assert_eq!(first.metadata.len(), 1);
}

#[test]
fn prepared_call_outlives_shutdown() {
    let rt = runtime();
    let _guard = rt.enter();
    let calls = Arc::new(AtomicUsize::new(0));
    let mut exporter = TonicTracesClient::new(lazy_channel(), counting(calls.clone()), None);
    let before = exporter.prepare();
    exporter.shutdown();
    let after = exporter.prepare();
    assert!(before.is_ok());
    assert!(matches!(after, Err(ExportError::AlreadyShutDown)));
    let outbound = before.unwrap().into_outbound(Vec::new());
    assert!(outbound.span_names.is_empty());
    assert_eq!(calls.load(Ordering::SeqCst), 1);
}

#[test]
fn without_compression_the_stub_sends_plain() {
    let rt = runtime();
    let _guard = rt.enter();
    let calls = Arc::new(AtomicUsize::new(0));
    let mut exporter = TonicTracesClient::new(lazy_channel(), counting(calls), None);
    let call = exporter.prepare().unwrap();
    let shown = format!("{:?}", call.client);
    assert!(shown.contains("compression_encoding: None"));
}

#[test]
fn with_compression_the_stub_compresses_requests() {
    let rt = runtime();
    let _guard = rt.enter();
    let calls = Arc::new(AtomicUsize::new(0));
    let mut exporter =
        TonicTracesClient::new(lazy_channel(), counting(calls), Some(CompressionEncoding::Gzip));
    let call = exporter.prepare().unwrap();
    let shown = format!("{:?}", call.client);
    assert!(shown.contains("compression_encoding: Some(Gzip)"));
    // every call gets a clone with the same setting
    let again = exporter.prepare().unwrap();
    assert!(format!("{:?}", again.client).contains("compression_encoding: Some(Gzip)"));
}

#[test]
fn grant_lets_a_filled_envelope_through() {
    let rt = runtime();
    let _guard = rt.enter();
    let calls = Arc::new(AtomicUsize::new(0));
    let mut exporter = TonicTracesClient::new(lazy_channel(), counting(calls), None);
    let stub = exporter.prepare().unwrap().client;
    let mut envelope = Request::new(());
    envelope.metadata_mut().insert("x-tenant", MetadataValue::from_static("blue"));
    envelope.extensions_mut().insert(41u32);
    let call = grant(&stub, Ok(envelope)).unwrap();
    assert_eq!(call.metadata.get("x-tenant").unwrap(), "blue");
    assert_eq!(call.extensions.get::<u32>(), Some(&41u32));
}

#[test]
fn grant_hands_a_refusal_on() {
    let rt = runtime();
    let _guard = rt.enter();
    let calls = Arc::new(AtomicUsize::new(0));
    let mut exporter = TonicTracesClient::new(lazy_channel(), counting(calls), None);
    let stub = exporter.prepare().unwrap().client;
    match grant(&stub, Err(Status::permission_denied("not you"))) {
        Err(ExportError::InterceptorError(status)) => {
            assert_eq!(status.code(), Code::PermissionDenied);
            assert_eq!(status.message(), "not you");
        }
        _ => panic!("a refusal should end the call"),
    }
}

#[test]
fn shut_down_message_reads_as_before() {
    assert_eq!(SHUT_DOWN_MESSAGE, "exporter is already shut down");
}

#[test]
fn exporter_shows_by_name() {
    let rt = runtime();
    let _guard = rt.enter();
    let calls = Arc::new(AtomicUsize::new(0));
    let mut exporter = TonicTracesClient::new(lazy_channel(), counting(calls), None);
    assert_eq!(exporter.name(), "TonicTracesClient");
    exporter.shutdown();
    assert_eq!(exporter.name(), "TonicTracesClient");
}
