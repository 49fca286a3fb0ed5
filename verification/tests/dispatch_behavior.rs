use std::cell::Cell;
use std::cell::RefCell;
use std::rc::Rc;

use ops_console::action::Action;
use ops_console::command::CommandName;
use ops_console::dispatch::DispatchResult;
use ops_console::dispatch::dispatch;
use ops_console::dispatch::report_outcome;
use ops_console::registry::Registry;

/// Records every invocation so tests can observe what the dispatcher did.
struct SpyAction {
    calls: Rc<Cell<usize>>,
    last_argument: Rc<RefCell<Option<String>>>,
    result: Result<String, String>,
}

impl SpyAction {
    fn succeeding(output: &str) -> (SpyAction, Rc<Cell<usize>>, Rc<RefCell<Option<String>>>) {
        let calls = Rc::new(Cell::new(0));
        let last_argument = Rc::new(RefCell::new(None));
        let spy = SpyAction {
            calls: Rc::clone(&calls),
            last_argument: Rc::clone(&last_argument),
            result: Ok(output.to_string()),
        };
        (spy, calls, last_argument)
    }

    fn failing(detail: &str) -> (SpyAction, Rc<Cell<usize>>) {
        let calls = Rc::new(Cell::new(0));
        let spy = SpyAction {
            calls: Rc::clone(&calls),
            last_argument: Rc::new(RefCell::new(None)),
            result: Err(detail.to_string()),
        };
        (spy, calls)
    }
}

impl Action for SpyAction {
    fn invoke(&mut self, argument: &str) -> Result<String, String> {
        self.calls.set(self.calls.get() + 1);
        *self.last_argument.borrow_mut() = Some(argument.to_string());
        self.result.clone()
    }
}

#[test]
fn dispatch_ps_invokes_bound_action_once_with_empty_argument() {
    let mut registry: Registry<SpyAction> = Registry::new();
    let (spy, calls, last_argument) = SpyAction::succeeding("process list");
    registry.register(CommandName::Ps, spy).unwrap();

    let report = dispatch(&mut registry, "ps", "");
    match report {
        DispatchResult::Success(output) => assert_eq!(output, "process list"),
        other => panic!("expected success, got {:?}", other),
    }
    assert_eq!(calls.get(), 1);
    assert_eq!(last_argument.borrow().as_deref(), Some(""));
}

#[test]
fn dispatch_kill_passes_the_argument_through() {
    let mut registry: Registry<SpyAction> = Registry::new();
    let (spy, calls, last_argument) = SpyAction::succeeding("terminated");
    registry.register(CommandName::KillGraceful, spy).unwrap();

    let report = dispatch(&mut registry, "kill", "4821");
    assert!(matches!(report, DispatchResult::Success(_)));
    assert_eq!(calls.get(), 1);
    assert_eq!(last_argument.borrow().as_deref(), Some("4821"));
}

#[test]
fn dispatch_unknown_token_reports_and_invokes_nothing() {
    let mut registry: Registry<SpyAction> = Registry::new();
    let mut counters = Vec::new();
    for id in CommandName::iter() {
        let (spy, calls, _) = SpyAction::succeeding("ok");
        registry.register(id, spy).unwrap();
        counters.push(calls);
    }
    assert!(registry.missing_binding().is_none());

    let report = dispatch(&mut registry, "bogus-token", "");
    match report {
        DispatchResult::UnknownCommand(token) => assert_eq!(token, "bogus-token"),
        other => panic!("expected unknown command, got {:?}", other),
    }
    for calls in counters {
        assert_eq!(calls.get(), 0);
    }
}

#[test]
fn dispatch_reports_missing_handler_for_unbound_command() {
    let mut registry: Registry<SpyAction> = Registry::new();
    let report = dispatch(&mut registry, "ps", "");
    match report {
        DispatchResult::MissingHandler(id) => assert_eq!(id, CommandName::Ps),
        other => panic!("expected missing handler, got {:?}", other),
    }
}

#[test]
fn dispatch_propagates_action_failure() {
    let mut registry: Registry<SpyAction> = Registry::new();
    let (spy, calls) = SpyAction::failing("name lookup failed");
    registry.register(CommandName::Dig, spy).unwrap();

    let report = dispatch(&mut registry, "dig", "example.invalid");
    match report {
        DispatchResult::ActionFailure(detail) => assert_eq!(detail, "name lookup failed"),
        other => panic!("expected action failure, got {:?}", other),
    }
    assert_eq!(calls.get(), 1);
}

#[test]
fn dispatch_leaves_other_bindings_usable() {
    let mut registry: Registry<SpyAction> = Registry::new();
    let (ps_spy, ps_calls, _) = SpyAction::succeeding("processes");
    let (free_spy, free_calls, _) = SpyAction::succeeding("memory");
    registry.register(CommandName::Ps, ps_spy).unwrap();
    registry.register(CommandName::Free, free_spy).unwrap();

    assert!(matches!(dispatch(&mut registry, "ps", ""), DispatchResult::Success(_)));
    assert!(matches!(dispatch(&mut registry, "free", ""), DispatchResult::Success(_)));
    assert_eq!(ps_calls.get(), 1);
    assert_eq!(free_calls.get(), 1);
}

#[test]
fn report_outcome_classifies_both_cases() {
    let success = report_outcome(Ok("captured".to_string()));
    match success {
        DispatchResult::Success(output) => assert_eq!(output, "captured"),
        other => panic!("expected success, got {:?}", other),
    }
    let failure = report_outcome(Err("spawn error".to_string()));
    match failure {
        DispatchResult::ActionFailure(detail) => assert_eq!(detail, "spawn error"),
        other => panic!("expected failure, got {:?}", other),
    }
}
