use audio_convert_rs::otel::{init_tracer, Exporter};
use audio_convert_rs::SERVICE_NAME;

#[test]
fn no_endpoint() {
    for endpoint in [None, Some(String::new())] {
        let plan = init_tracer(None, endpoint);
        assert!(matches!(plan.exporter, Exporter::Nothing));
        assert_eq!(plan.info, "No OTLP endpoint");
        assert_eq!(plan.service_name, "audio-convert-rs");
        assert_eq!(plan.service_name, SERVICE_NAME);
    }
}

#[test]
fn standard_output() {
    let plan = init_tracer(Some("mine".to_string()), Some("stdout".to_string()));
    assert!(matches!(plan.exporter, Exporter::Stdout));
    assert_eq!(plan.info, "OTLP stdout exporter");
    assert_eq!(plan.service_name, "mine");
}

#[test]
fn collector() {
    let plan = init_tracer(None, Some("http://c:4318".to_string()));
    assert!(matches!(plan.exporter, Exporter::Endpoint(address) if address == "http://c:4318"));
    assert_eq!(plan.info, "OTLP endpoint: http://c:4318");
}
