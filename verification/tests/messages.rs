use waybar_dbus_monitor::cli::TypeHandler;

fn handler() -> TypeHandler {
    TypeHandler::Boolean {
        return_true: "on".to_string(),
        return_false: "off".to_string(),
    }
}

fn signal_builder() -> zbus::message::Builder<'static> {
    zbus::Message::signal("/com/example/Test", "com.example.Test", "Changed").unwrap()
}

#[test]
fn decodes_a_plain_boolean_body() {
    let msg = signal_builder().build(&true).unwrap();
    assert_eq!(handler().deserialize_from_message(&msg), Ok(true));
    let msg2 = signal_builder().build(&false).unwrap();
    assert_eq!(handler().deserialize_from_message(&msg2), Ok(false));
}

#[test]
fn decodes_a_variant_wrapped_boolean_body() {
    let inner = zbus::zvariant::Value::Bool(true);
    let body = zbus::zvariant::Value::Value(Box::new(inner));
    let msg = signal_builder().build(&body).unwrap();
    assert_eq!(handler().deserialize_from_message(&msg), Ok(true));
}

#[test]
fn rejects_a_non_boolean_body() {
    let msg = signal_builder().build(&"hello").unwrap();
    let r = handler().deserialize_from_message(&msg);
    assert!(r.is_err());
}
