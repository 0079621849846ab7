use worker::registry::Registry;
use worker::signal::AbortController;

#[test]
fn new_registry_is_empty() {
    let registry = Registry::new();
    assert_eq!(registry.active(), None);
}

#[test]
fn force_abort_on_empty_registry_does_nothing() {
    let mut registry = Registry::new();
    assert_eq!(registry.force_abort(), None);
    assert_eq!(registry.force_abort(), None);
    assert_eq!(registry.active(), None);
}

#[test]
fn force_abort_twice_aborts_once() {
    let mut registry = Registry::new();
    registry.install(AbortController::new(4));
    assert_eq!(registry.force_abort(), Some(4));
    assert_eq!(registry.active(), Some(4));
    assert_eq!(registry.force_abort(), None);
    assert_eq!(registry.active(), Some(4));
}

#[test]
fn later_install_replaces_the_earlier() {
    let mut registry = Registry::new();
    registry.install(AbortController::new(1));
    registry.install(AbortController::new(2));
    assert_eq!(registry.active(), Some(2));
    assert_eq!(registry.force_abort(), Some(2));
    assert_eq!(registry.force_abort(), None);
}

#[test]
fn installing_a_triggered_controller_leaves_nothing_to_abort() {
    let mut controller = AbortController::new(3);
    controller.abort();
    let mut registry = Registry::new();
    registry.install(controller);
    assert_eq!(registry.active(), Some(3));
    assert_eq!(registry.force_abort(), None);
}

#[test]
fn clear_disarms_the_registry() {
    let mut registry = Registry::new();
    registry.install(AbortController::new(8));
    registry.clear();
    assert_eq!(registry.active(), None);
    assert_eq!(registry.force_abort(), None);
}

#[test]
fn install_after_force_abort_arms_again() {
    let mut registry = Registry::new();
    registry.install(AbortController::new(1));
    assert_eq!(registry.force_abort(), Some(1));
    registry.install(AbortController::new(2));
    assert_eq!(registry.force_abort(), Some(2));
}
