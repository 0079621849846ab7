use worker::event::{
    classify, expand_macro, parse_attributes, Attribute, AttributeError, ErrorHandling,
    HandlerConfig, HandlerType,
};

fn attrs(names: &[&str]) -> Vec<String> {
    names.iter().map(|name| name.to_string()).collect()
}

#[test]
fn every_attribute_has_its_meaning() {
    assert_eq!(classify("fetch", false), Some(Attribute::Handler(HandlerType::Fetch)));
    assert_eq!(classify("scheduled", false), Some(Attribute::Handler(HandlerType::Scheduled)));
    assert_eq!(classify("start", false), Some(Attribute::Handler(HandlerType::Start)));
    assert_eq!(classify("queue", true), Some(Attribute::Handler(HandlerType::Queue)));
    assert_eq!(classify("respond_with_errors", false), Some(Attribute::RespondWithErrors));
    assert_eq!(classify("respond_with_errors", true), Some(Attribute::RespondWithErrors));
}

#[test]
fn queue_attribute_is_unknown_when_queues_are_off() {
    assert_eq!(classify("queue", false), None);
    assert_eq!(
        parse_attributes(&attrs(&["queue"]), false),
        Err(AttributeError::Invalid { index: 0 })
    );
}

#[test]
fn near_misses_are_unknown() {
    assert_eq!(classify("", true), None);
    assert_eq!(classify("Fetch", true), None);
    assert_eq!(classify("fetc", true), None);
    assert_eq!(classify("fetch ", true), None);
    assert_eq!(classify("fetsh", true), None);
    assert_eq!(classify("respond_with_error", true), None);
    assert_eq!(classify("st\u{e4}rt", true), None);
}

#[test]
fn single_handler_attribute_is_accepted() {
    assert_eq!(
        parse_attributes(&attrs(&["fetch"]), false),
        Ok(HandlerConfig { handler_type: HandlerType::Fetch, respond_with_errors: false })
    );
    assert_eq!(
        parse_attributes(&attrs(&["scheduled"]), false),
        Ok(HandlerConfig { handler_type: HandlerType::Scheduled, respond_with_errors: false })
    );
    assert_eq!(
        parse_attributes(&attrs(&["start"]), false),
        Ok(HandlerConfig { handler_type: HandlerType::Start, respond_with_errors: false })
    );
    assert_eq!(
        parse_attributes(&attrs(&["queue"]), true),
        Ok(HandlerConfig { handler_type: HandlerType::Queue, respond_with_errors: false })
    );
}

#[test]
fn respond_with_errors_may_stand_anywhere() {
    let expected =
        Ok(HandlerConfig { handler_type: HandlerType::Fetch, respond_with_errors: true });
    assert_eq!(parse_attributes(&attrs(&["fetch", "respond_with_errors"]), false), expected);
    assert_eq!(parse_attributes(&attrs(&["respond_with_errors", "fetch"]), false), expected);
}

#[test]
fn last_handler_attribute_decides() {
    assert_eq!(
        parse_attributes(&attrs(&["fetch", "scheduled"]), false),
        Ok(HandlerConfig { handler_type: HandlerType::Scheduled, respond_with_errors: false })
    );
    assert_eq!(
        parse_attributes(&attrs(&["start", "respond_with_errors", "fetch"]), false),
        Ok(HandlerConfig { handler_type: HandlerType::Fetch, respond_with_errors: true })
    );
}

#[test]
fn missing_handler_type_is_an_error() {
    assert_eq!(parse_attributes(&attrs(&[]), false), Err(AttributeError::MissingHandlerType));
    assert_eq!(
        parse_attributes(&attrs(&["respond_with_errors"]), true),
        Err(AttributeError::MissingHandlerType)
    );
}

#[test]
fn first_unknown_attribute_is_reported() {
    assert_eq!(
        parse_attributes(&attrs(&["fetch", "bogus", "other"]), false),
        Err(AttributeError::Invalid { index: 1 })
    );
    assert_eq!(
        parse_attributes(&attrs(&["bogus"]), false),
        Err(AttributeError::Invalid { index: 0 })
    );
    assert_eq!(
        parse_attributes(&attrs(&["respond_with_errors", "fetch", "queue"]), false),
        Err(AttributeError::Invalid { index: 2 })
    );
}

#[test]
fn fetch_entry_point_is_cancellable() {
    let expansion = expand_macro(&attrs(&["fetch"]), "main", false).unwrap();
    assert_eq!(expansion.handler_type, HandlerType::Fetch);
    assert_eq!(expansion.handler_ident, "main_fetch_glue");
    assert_eq!(expansion.wrapper_ident, "fetch");
    assert_eq!(expansion.module_ident, "_worker_fetch");
    assert!(!expansion.runs_at_start);
    assert!(expansion.cancellable);
    assert_eq!(expansion.error_handling, Some(ErrorHandling::Raise));
}

#[test]
fn fetch_entry_point_answers_errors_on_request() {
    let expansion =
        expand_macro(&attrs(&["respond_with_errors", "fetch"]), "handle", true).unwrap();
    assert_eq!(expansion.handler_ident, "handle_fetch_glue");
    assert_eq!(expansion.error_handling, Some(ErrorHandling::Respond));
    assert!(expansion.cancellable);
}

#[test]
fn scheduled_entry_point_has_no_cancellation() {
    let expansion =
        expand_macro(&attrs(&["scheduled", "respond_with_errors"]), "tick", false).unwrap();
    assert_eq!(expansion.handler_type, HandlerType::Scheduled);
    assert_eq!(expansion.handler_ident, "tick_scheduled_glue");
    assert_eq!(expansion.wrapper_ident, "scheduled");
    assert_eq!(expansion.module_ident, "_worker_scheduled");
    assert!(!expansion.runs_at_start);
    assert!(!expansion.cancellable);
    assert_eq!(expansion.error_handling, None);
}

#[test]
fn queue_entry_point_raises_errors() {
    let expansion =
        expand_macro(&attrs(&["queue", "respond_with_errors"]), "consume", true).unwrap();
    assert_eq!(expansion.handler_type, HandlerType::Queue);
    assert_eq!(expansion.handler_ident, "consume_queue_glue");
    assert_eq!(expansion.wrapper_ident, "queue");
    assert_eq!(expansion.module_ident, "_worker_queue");
    assert!(!expansion.cancellable);
    assert_eq!(expansion.error_handling, Some(ErrorHandling::Raise));
}

#[test]
fn start_entry_point_runs_at_start() {
    let expansion = expand_macro(&attrs(&["start"]), "init", false).unwrap();
    assert_eq!(expansion.handler_type, HandlerType::Start);
    assert_eq!(expansion.handler_ident, "init_start_glue");
    assert_eq!(expansion.wrapper_ident, "start");
    assert_eq!(expansion.module_ident, "_worker_start");
    assert!(expansion.runs_at_start);
    assert!(!expansion.cancellable);
    assert_eq!(expansion.error_handling, None);
}

#[test]
fn plan_keeps_the_name_of_the_handler() {
    let config = HandlerConfig { handler_type: HandlerType::Fetch, respond_with_errors: true };
    let expansion = config.plan("");
    assert_eq!(expansion.handler_ident, "_fetch_glue");
    let expansion = config.plan("r\u{e9}ponse");
    assert_eq!(expansion.handler_ident, "r\u{e9}ponse_fetch_glue");
}

#[test]
fn expansion_hands_on_the_errors_of_the_attributes() {
    assert_eq!(
        expand_macro(&attrs(&["fetch", "nope"]), "main", false),
        Err(AttributeError::Invalid { index: 1 })
    );
    assert_eq!(
        expand_macro(&attrs(&["respond_with_errors"]), "main", false),
        Err(AttributeError::MissingHandlerType)
    );
}
