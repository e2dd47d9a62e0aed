use nyxs_owl::error::utils::{handle_recoverable_error, log_error, with_context};
use nyxs_owl::error::{ContextualError, ErrorContext, HybridError, HybridResult};
use nyxs_owl::types::NyxsOwlError;

#[test]
fn test_error_creation() {
    let config_error = HybridError::configuration("Invalid configuration");
    assert!(matches!(config_error, HybridError::Configuration(_)));

    let data_error = HybridError::data("Data validation failed");
    assert!(matches!(data_error, HybridError::DataError(_)));

    let tech_error = HybridError::technical_indicator("RSI calculation failed");
    assert!(matches!(tech_error, HybridError::TechnicalIndicator(_)));
}

#[test]
fn test_error_properties() {
    let recoverable_error = HybridError::validation("Parameter out of range");
    assert!(recoverable_error.is_recoverable());
    assert!(!recoverable_error.is_critical());

    let critical_error = HybridError::configuration("Missing required config");
    assert!(!critical_error.is_recoverable());
    assert!(critical_error.is_critical());
}

#[test]
fn test_error_context() {
    let error = HybridError::data("Invalid data format");
    assert_eq!(error.context(), "Data processing or validation");
}

#[test]
fn test_contextual_error() {
    let inner_error = HybridError::technical_indicator("Calculation failed");
    let context = ErrorContext::new("signal_generation".to_string(), "rsi_indicator".to_string());
    let contextual_error = ContextualError::new(inner_error, context);

    assert_eq!(contextual_error.context().operation, "signal_generation");
    assert_eq!(contextual_error.context().component, "rsi_indicator");
}

#[test]
fn test_error_conversion() {
    let hybrid_error = HybridError::data("Test error");
    let nyxs_error: NyxsOwlError = hybrid_error.into();

    assert!(matches!(nyxs_error, NyxsOwlError::StrategyError(_)));
}

#[test]
fn error_constructors_keep_messages() {
    let cases: Vec<(HybridError, &str)> = vec![
        (HybridError::forecasting_model("a"), "Forecasting model error: a"),
        (HybridError::feature_engineering("b"), "Feature engineering error: b"),
        (HybridError::signal_confirmation("c"), "Signal confirmation error: c"),
        (HybridError::integration("d"), "Integration error: d"),
        (HybridError::performance("e"), "Performance error: e"),
        (HybridError::memory("f"), "Memory error: f"),
        (HybridError::async_op("g"), "Async operation error: g"),
        (HybridError::external_dependency("h"), "External dependency error: h"),
        (HybridError::unknown("i"), "Unknown error: i"),
        (HybridError::configuration(String::from("j")), "Configuration error: j"),
        (HybridError::validation("k"), "Validation error: k"),
    ];
    for (e, text) in cases {
        assert_eq!(e.to_string(), text);
    }
}

#[test]
fn error_recoverable_and_critical_split() {
    assert!(HybridError::performance("x").is_recoverable());
    assert!(HybridError::data("x").is_recoverable());
    assert!(HybridError::memory("x").is_critical());
    assert!(HybridError::external_dependency("x").is_critical());
    let neither = HybridError::async_op("x");
    assert!(!neither.is_recoverable() && !neither.is_critical());
    assert!(handle_recoverable_error(&HybridError::validation("v")));
    assert!(!handle_recoverable_error(&HybridError::memory("m")));
}

#[test]
fn error_context_texts() {
    assert_eq!(HybridError::async_op("x").context(), "Asynchronous operation");
    assert_eq!(HybridError::unknown("x").context(), "Unknown or unexpected error");
    assert_eq!(HybridError::memory("x").context(), "Memory allocation or management");
}

#[test]
fn error_context_details_override() {
    let ctx = ErrorContext::new("op".to_string(), "comp".to_string())
        .with_context("k1".to_string(), "v1".to_string())
        .with_context("k2".to_string(), "v2".to_string())
        .with_context("k1".to_string(), "v3".to_string());
    assert_eq!(ctx.context.len(), 2);
    assert_eq!(ctx.context[0], ("k1".to_string(), "v3".to_string()));
    assert_eq!(ctx.context[1], ("k2".to_string(), "v2".to_string()));

    let ctx2 = ErrorContext::new("op".to_string(), "comp".to_string()).with_contexts(vec![
        ("a".to_string(), "1".to_string()),
        ("b".to_string(), "2".to_string()),
        ("a".to_string(), "3".to_string()),
    ]);
    assert_eq!(ctx2.context, vec![("a".to_string(), "3".to_string()), ("b".to_string(), "2".to_string())]);
}

#[test]
fn contextual_error_rendering_and_logging() {
    let ctx = ErrorContext::new("load".to_string(), "reader".to_string())
        .with_context("file".to_string(), "x.csv".to_string());
    let err = ContextualError::new(HybridError::data("bad row"), ctx);
    assert_eq!(err.to_string(), "Error in load (reader): Data error: bad row");
    assert!(matches!(err.inner(), HybridError::DataError(_)));
    let lines = log_error(err.inner(), err.context());
    assert_eq!(
        lines,
        vec![
            "Hybrid strategy error in load (reader): Data error: bad row".to_string(),
            "  file: x.csv".to_string()
        ]
    );
}

#[test]
fn with_context_wraps_only_errors() {
    let ok: HybridResult<u32> = Ok(7);
    assert!(matches!(with_context(ok, "a", "b"), Ok(7)));
    let bad: HybridResult<u32> = Err(HybridError::memory("oom"));
    match with_context(bad, "alloc", "pool") {
        Err(ce) => {
            assert_eq!(ce.context.operation, "alloc");
            assert_eq!(ce.context.component, "pool");
            assert!(ce.context.context.is_empty());
            assert!(matches!(ce.error, HybridError::Memory(_)));
        }
        Ok(_) => panic!("expected an error"),
    }
}

#[test]
fn hybrid_error_to_strategy_error_message() {
    let e: NyxsOwlError = HybridError::validation("bad").into();
    assert_eq!(e, NyxsOwlError::StrategyError("Hybrid strategy error: Validation error: bad".to_string()));
}

#[test]
fn outside_errors_convert_with_labels() {
    let io = std::io::Error::new(std::io::ErrorKind::Other, "disk");
    match HybridError::from(io) {
        HybridError::DataError(m) => assert_eq!(m, "IO error: disk"),
        other => panic!("unexpected {:?}", other),
    }
    let json = serde_json::from_str::<u32>("x").unwrap_err();
    let text = json.to_string();
    match HybridError::from(json) {
        HybridError::DataError(m) => assert_eq!(m, format!("JSON serialization error: {}", text)),
        other => panic!("unexpected {:?}", other),
    }
    let parse = chrono::NaiveDate::parse_from_str("nope", "%Y-%m-%d").unwrap_err();
    let text = parse.to_string();
    match HybridError::from(parse) {
        HybridError::DataError(m) => assert_eq!(m, format!("Date/time parsing error: {}", text)),
        other => panic!("unexpected {:?}", other),
    }
    let _ = rayon::ThreadPoolBuilder::new().num_threads(1).build_global();
    let second = rayon::ThreadPoolBuilder::new().num_threads(1).build_global().unwrap_err();
    let text = second.to_string();
    match HybridError::from(second) {
        HybridError::Performance(m) => assert_eq!(m, format!("Thread pool build error: {}", text)),
        other => panic!("unexpected {:?}", other),
    }
    let rt = tokio::runtime::Builder::new_current_thread().build().unwrap();
    let handle = rt.spawn(async {});
    handle.abort();
    let join_err = rt.block_on(handle).unwrap_err();
    let text = join_err.to_string();
    match HybridError::from(join_err) {
        HybridError::Async(m) => assert_eq!(m, format!("Task join error: {}", text)),
        other => panic!("unexpected {:?}", other),
    }
    let mutex = std::sync::Mutex::new(());
    let poisoned: std::sync::PoisonError<std::sync::MutexGuard<'_, ()>> =
        std::sync::PoisonError::new(mutex.lock().unwrap());
    match HybridError::from(poisoned) {
        HybridError::Async(m) => assert!(m.starts_with("Mutex poison error: ")),
        other => panic!("unexpected {:?}", other),
    }
}
