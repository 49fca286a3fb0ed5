use std::cell::Cell;
use std::cell::RefCell;
use std::rc::Rc;

use ops_console::action::Action;
use ops_console::command::CommandName;
use ops_console::dispatch::DispatchResult;
use ops_console::dispatch::dispatch;
use ops_console::registry::Registry;
use ops_console::registry::RegistryError;

struct CountingAction {
    calls: Rc<Cell<usize>>,
    output: String,
}

impl CountingAction {
    fn new(output: &str) -> (CountingAction, Rc<Cell<usize>>) {
        let calls = Rc::new(Cell::new(0));
        let action = CountingAction { calls: Rc::clone(&calls), output: output.to_string() };
        (action, calls)
    }
}

impl Action for CountingAction {
    fn invoke(&mut self, _argument: &str) -> Result<String, String> {
        self.calls.set(self.calls.get() + 1);
        Ok(self.output.clone())
    }
}

#[test]
fn duplicate_registration_fails_and_keeps_the_original_binding() {
    let mut registry: Registry<CountingAction> = Registry::new();
    let (first, first_calls) = CountingAction::new("first");
    let (second, second_calls) = CountingAction::new("second");

    assert!(registry.register(CommandName::Ping, first).is_ok());
    let rejected = registry.register(CommandName::Ping, second);
    assert_eq!(rejected, Err(RegistryError::DuplicateRegistration(CommandName::Ping)));

    let report = dispatch(&mut registry, "ping", "127.0.0.1");
    match report {
        DispatchResult::Success(output) => assert_eq!(output, "first"),
        other => panic!("expected success from the original binding, got {:?}", other),
    }
    assert_eq!(first_calls.get(), 1);
    assert_eq!(second_calls.get(), 0);
}

#[test]
fn empty_registry_reports_the_first_missing_binding() {
    let registry: Registry<CountingAction> = Registry::new();
    assert_eq!(registry.missing_binding(), Some(CommandName::Ps));
    assert!(!registry.is_registered(CommandName::Ps));
}

#[test]
fn partially_built_registry_names_an_unbound_command() {
    let mut registry: Registry<CountingAction> = Registry::new();
    let (action, _) = CountingAction::new("ok");
    registry.register(CommandName::Ps, action).unwrap();
    assert!(registry.is_registered(CommandName::Ps));
    assert_eq!(registry.missing_binding(), Some(CommandName::Htop));
}

#[test]
fn fully_built_registry_passes_the_startup_check() {
    let mut registry: Registry<CountingAction> = Registry::new();
    for id in CommandName::iter() {
        let (action, _) = CountingAction::new("ok");
        assert!(registry.register(id, action).is_ok());
    }
    assert!(registry.missing_binding().is_none());
    for id in CommandName::iter() {
        assert!(registry.is_registered(id));
    }
}

/// An action whose state changes across invocations: the registry keeps the
/// mutated action in place.
struct TogglingAction {
    seen: Rc<RefCell<Vec<String>>>,
}

impl Action for TogglingAction {
    fn invoke(&mut self, argument: &str) -> Result<String, String> {
        self.seen.borrow_mut().push(argument.to_string());
        Ok(format!("call {}", self.seen.borrow().len()))
    }
}

#[test]
fn repeated_dispatch_reaches_the_same_action_instance() {
    let seen = Rc::new(RefCell::new(Vec::new()));
    let mut registry: Registry<TogglingAction> = Registry::new();
    registry.register(CommandName::Curl, TogglingAction { seen: Rc::clone(&seen) }).unwrap();

    match dispatch(&mut registry, "curl", "http://one.example") {
        DispatchResult::Success(output) => assert_eq!(output, "call 1"),
        other => panic!("expected success, got {:?}", other),
    }
    match dispatch(&mut registry, "curl", "http://two.example") {
        DispatchResult::Success(output) => assert_eq!(output, "call 2"),
        other => panic!("expected success, got {:?}", other),
    }
    assert_eq!(*seen.borrow(), vec!["http://one.example", "http://two.example"]);
}
