use rprint::printer::DummyPrinterManager;
use rprint::protocol::{ClientMessage, PrintOptions, PrintRequest, ServerMessage};
use rprint::renderer::render_template;
use rprint::server::{
    handle_message, health_body, invalid_message, on_inbound, on_outbound, ConnectionCounter,
    Inbound, InboundAction, Outbound, OutboundAction, BROADCAST_CAPACITY,
};

fn registry() -> handlebars::Handlebars<'static> {
    let mut hbs = handlebars::Handlebars::new();
    hbs.register_escape_fn(handlebars::no_escape);
    hbs
}

#[test]
fn test_render_simple() {
    let template = "Hello, {{name}}!";
    let data: serde_json::Value = serde_json::from_str("{\"name\": \"World\"}").unwrap();
    let result = render_template(&registry(), template, &data).unwrap();
    assert_eq!(result, "Hello, World!");
}

#[test]
fn test_render_escpos() {
    let template = "\x1B@\x1Ba\x01Order: {{order_no}}\n\x1Bd\x03";
    let data: serde_json::Value = serde_json::from_str("{\"order_no\": \"12345\"}").unwrap();
    let result = render_template(&registry(), template, &data).unwrap();
    assert!(result.contains("Order: 12345"));
}

#[test]
fn substituted_values_are_not_escaped() {
    let data: serde_json::Value = serde_json::from_str("{\"v\": \"<a&b>\"}").unwrap();
    assert_eq!(render_template(&registry(), "[{{v}}]", &data).unwrap(), "[<a&b>]");
}

#[test]
fn invalid_json_gets_invalid_message() {
    let reply = handle_message(Err("expected value".to_string()), &DummyPrinterManager, &registry(), 1);
    match reply {
        ServerMessage::Error(e) => {
            assert_eq!(e.code, "INVALID_MESSAGE");
            assert_eq!(e.message, "Invalid message format: expected value");
        },
        _ => panic!("expected an error response"),
    }
    assert!(matches!(on_inbound(Inbound::Text("{not json".to_string())), InboundAction::Handle(_)));
    match invalid_message("x".to_string()) {
        ServerMessage::Error(e) => assert_eq!(e.code, "INVALID_MESSAGE"),
        _ => panic!("expected an error response"),
    }
}

#[test]
fn ping_status_and_printers() {
    let backend = DummyPrinterManager;
    assert!(matches!(handle_message(Ok(ClientMessage::Ping), &backend, &registry(), 0), ServerMessage::Pong));
    match handle_message(Ok(ClientMessage::GetStatus), &backend, &registry(), 3) {
        ServerMessage::Status(s) => {
            assert_eq!(s.status, "online");
            assert_eq!(s.connections, 3);
            assert_eq!(s.version, "0.1.0");
        },
        _ => panic!("expected a status"),
    }
    match handle_message(Ok(ClientMessage::GetPrinters), &backend, &registry(), 0) {
        ServerMessage::Printers(p) => assert!(p.printers.is_empty()),
        _ => panic!("expected printers"),
    }
}

#[test]
fn print_failure_is_a_print_result() {
    let req = PrintRequest {
        id: "r-7".to_string(),
        template_type: "escpos".to_string(),
        template: "x".to_string(),
        data: serde_json::Value::Null,
        printer: Some(String::new()),
        options: PrintOptions::default(),
    };
    match handle_message(Ok(ClientMessage::Print(req)), &DummyPrinterManager, &registry(), 0) {
        ServerMessage::PrintResult(r) => {
            assert_eq!(r.id, "r-7");
            assert_eq!(r.status, "error");
            assert_eq!(r.message, Some("No default printer available".to_string()));
        },
        _ => panic!("expected a print result"),
    }
}

#[test]
fn default_options_print_one_copy() {
    let options = PrintOptions::default();
    assert_eq!(options.copies, 1);
    assert_eq!(options.paper_size, None);
}

#[test]
fn counter_never_goes_negative() {
    let mut counter = ConnectionCounter::new();
    counter.closed();
    assert_eq!(counter.current(), 0);
    counter.opened();
    counter.opened();
    counter.closed();
    assert_eq!(counter.current(), 1);
}

#[test]
fn session_steps() {
    assert!(matches!(on_inbound(Inbound::Other), InboundAction::Ignore));
    assert!(matches!(on_inbound(Inbound::Failed), InboundAction::Stop));
    assert!(matches!(on_inbound(Inbound::Ended), InboundAction::Stop));
    assert!(matches!(on_outbound(Outbound::Message("m".to_string())), OutboundAction::Forward(ref m) if m == "m"));
    assert!(matches!(on_outbound(Outbound::Lagged(4)), OutboundAction::Stop));
    assert!(matches!(on_outbound(Outbound::Closed), OutboundAction::Stop));
    assert_eq!(health_body(), "OK");
    assert_eq!(BROADCAST_CAPACITY, 100);
}
