use rules_compiler::events::{
    ChunkStartedEventArgs, CompilationErrorEventArgs, CompilationEventHandler,
    CompilationStartedEventArgs, ConfigurationLoadedEventArgs, EventDispatcher,
    FileLockFailedEventArgs, SourceLoadingEventArgs, ValidationEventArgs, ValidationFinding,
    ValidationSeverity,
};
use rules_compiler::file_lock::FileLockService;
use std::sync::atomic::{AtomicUsize, Ordering};
use std::sync::Arc;

#[test]
fn test_validation_finding() {
    let finding = ValidationFinding::new(ValidationSeverity::Error, "E001", "Test error");
    assert_eq!(finding.severity, ValidationSeverity::Error);
    assert_eq!(finding.code, "E001");
}

#[test]
fn test_validation_event_args_passed() {
    let mut args = ValidationEventArgs::default();
    assert!(args.passed());

    args.add_warning("W001", "Warning");
    assert!(args.passed());

    args.add_error("E001", "Error");
    assert!(!args.passed());
}

#[test]
fn test_event_dispatcher() {
    let dispatcher = EventDispatcher::new();
    assert_eq!(dispatcher.handler_count(), 0);
}

#[test]
fn test_file_lock_service() {
    let service = FileLockService::new();
    assert_eq!(service.active_lock_count(), 0);
}

/// Counts its calls, and calls the event off when told to.
struct Probe {
    calls: Arc<AtomicUsize>,
    stop: bool,
}

impl Probe {
    fn new(stop: bool) -> (Box<Probe>, Arc<AtomicUsize>) {
        let calls = Arc::new(AtomicUsize::new(0));
        (Box::new(Probe { calls: calls.clone(), stop }), calls)
    }

    fn hit(&self) {
        self.calls.fetch_add(1, Ordering::SeqCst);
    }
}

impl CompilationEventHandler for Probe {
    fn on_compilation_starting(&self, args: &mut CompilationStartedEventArgs) {
        self.hit();
        if self.stop {
            args.cancel = true;
            args.cancel_reason = Some("stop".to_string());
        }
    }

    fn on_configuration_loaded(&self, _args: &ConfigurationLoadedEventArgs) {
        self.hit();
    }

    fn on_validation(&self, args: &mut ValidationEventArgs) {
        self.hit();
        if self.stop {
            args.add_critical("ZT001", "tampered");
        } else {
            args.add_warning("W001", "looked at");
        }
    }

    fn on_source_loading(&self, args: &mut SourceLoadingEventArgs) {
        self.hit();
        if self.stop {
            args.skip = true;
        }
    }

    fn on_file_lock_failed(&self, args: &mut FileLockFailedEventArgs) {
        self.hit();
        if self.stop {
            args.continue_without_lock = true;
        }
    }

    fn on_chunk_started(&self, args: &mut ChunkStartedEventArgs) {
        self.hit();
        if self.stop {
            args.skip = true;
        }
    }

    fn on_compilation_error(&self, args: &mut CompilationErrorEventArgs) {
        self.hit();
        if self.stop {
            args.handled = true;
        }
    }
}

fn three_handlers(stop_at: Option<usize>) -> (EventDispatcher, Vec<Arc<AtomicUsize>>) {
    let mut dispatcher = EventDispatcher::new();
    let mut counters = Vec::new();
    for i in 0..3 {
        let (probe, calls) = Probe::new(stop_at == Some(i));
        dispatcher.add_handler(probe);
        counters.push(calls);
    }
    (dispatcher, counters)
}

fn counts(counters: &[Arc<AtomicUsize>]) -> Vec<usize> {
    counters.iter().map(|c| c.load(Ordering::SeqCst)).collect()
}

#[test]
fn test_dispatcher_registers_in_order() {
    let (dispatcher, _) = three_handlers(None);
    assert_eq!(dispatcher.handler_count(), 3);
    assert_eq!(EventDispatcher::default().handler_count(), 0);
}

#[test]
fn test_validation_stops_after_abort() {
    let (dispatcher, counters) = three_handlers(Some(1));
    let mut args = ValidationEventArgs::default();
    dispatcher.raise_validation(&mut args);
    assert_eq!(counts(&counters), vec![1, 1, 0]);
    assert!(args.abort);
    assert_eq!(args.abort_reason.as_deref(), Some("tampered"));
    assert_eq!(args.findings.len(), 2);
    assert_eq!(args.findings[0].severity, ValidationSeverity::Warning);
    assert_eq!(args.findings[1].severity, ValidationSeverity::Critical);
    assert!(!args.passed());
}

#[test]
fn test_validation_calls_every_handler_without_abort() {
    let (dispatcher, counters) = three_handlers(None);
    let mut args = ValidationEventArgs::default();
    dispatcher.raise_validation(&mut args);
    assert_eq!(counts(&counters), vec![1, 1, 1]);
    assert!(!args.abort);
    assert_eq!(args.findings.len(), 3);
    assert!(args.passed());
}

#[test]
fn test_validation_first_handler_runs_on_aborted_event() {
    let (dispatcher, counters) = three_handlers(None);
    let mut args = ValidationEventArgs::default();
    args.abort = true;
    dispatcher.raise_validation(&mut args);
    assert_eq!(counts(&counters), vec![1, 0, 0]);
    assert!(args.abort);
}

#[test]
fn test_compilation_starting_stops_after_cancel() {
    let (dispatcher, counters) = three_handlers(Some(0));
    let mut args = CompilationStartedEventArgs::default();
    dispatcher.raise_compilation_starting(&mut args);
    assert_eq!(counts(&counters), vec![1, 0, 0]);
    assert!(args.cancel);
    assert_eq!(args.cancel_reason.as_deref(), Some("stop"));
}

#[test]
fn test_source_loading_and_chunk_started_stop_after_skip() {
    let (dispatcher, counters) = three_handlers(Some(1));
    let mut loading = SourceLoadingEventArgs::default();
    dispatcher.raise_source_loading(&mut loading);
    assert!(loading.skip);
    assert_eq!(counts(&counters), vec![1, 1, 0]);
    let mut started = ChunkStartedEventArgs::default();
    dispatcher.raise_chunk_started(&mut started);
    assert!(started.skip);
    assert_eq!(counts(&counters), vec![2, 2, 0]);
}

#[test]
fn test_stages_without_a_flag_call_every_handler() {
    let (dispatcher, counters) = three_handlers(Some(0));
    let mut failed = FileLockFailedEventArgs::default();
    dispatcher.raise_file_lock_failed(&mut failed);
    assert!(failed.continue_without_lock);
    assert_eq!(counts(&counters), vec![1, 1, 1]);
    let mut error = CompilationErrorEventArgs::default();
    dispatcher.raise_compilation_error(&mut error);
    assert!(error.handled);
    assert_eq!(counts(&counters), vec![2, 2, 2]);
    dispatcher.raise_configuration_loaded(&ConfigurationLoadedEventArgs::default());
    assert_eq!(counts(&counters), vec![3, 3, 3]);
}

#[test]
fn test_dispatch_without_handlers_leaves_arguments() {
    let dispatcher = EventDispatcher::new();
    let mut args = ValidationEventArgs::default();
    args.stage_name = "pre".to_string();
    dispatcher.raise_validation(&mut args);
    assert_eq!(args.stage_name, "pre");
    assert!(!args.abort);
    assert!(args.findings.is_empty());
}

#[test]
fn test_findings() {
    let finding = ValidationFinding::new(ValidationSeverity::Info, "I1", "note")
        .with_location("line 4");
    assert_eq!(finding.location.as_deref(), Some("line 4"));
    assert_eq!(finding.message, "note");
    assert!(finding.context.is_none());
    let mut args = ValidationEventArgs::default();
    args.add_finding(finding);
    assert!(args.passed());
    assert!(!args.abort);
    args.add_finding(ValidationFinding::new(ValidationSeverity::Critical, "C1", "stop here"));
    assert!(args.abort);
    assert_eq!(args.abort_reason.as_deref(), Some("stop here"));
    assert!(!args.passed());
    let mut other = ValidationEventArgs::default();
    other.add_critical("C2", "forged");
    assert!(other.abort);
    assert_eq!(other.abort_reason.as_deref(), Some("forged"));
    assert_eq!(other.findings.len(), 1);
    assert_eq!(other.findings[0].code, "C2");
}
