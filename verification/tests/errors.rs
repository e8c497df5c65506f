use waybar_dbus_monitor::error::AppError;
use waybar_dbus_monitor::error::BusFault;
use waybar_dbus_monitor::error::BusFaultKind;
use waybar_dbus_monitor::error::ErrorCode;
use waybar_dbus_monitor::error::classify;
use waybar_dbus_monitor::error::classify_zbus_error;

#[test]
fn codes_match_the_taxonomy() {
    assert_eq!(ErrorCode::ServiceUnavailable.code(), 503);
    assert_eq!(ErrorCode::BadGateway.code(), 502);
    assert_eq!(ErrorCode::NotFound.code(), 404);
    assert_eq!(ErrorCode::UnprocessableEntity.code(), 422);
}

#[test]
fn waybar_lines_are_e_plus_code() {
    assert_eq!(ErrorCode::ServiceUnavailable.format_for_waybar().as_str(), "E503");
    assert_eq!(ErrorCode::BadGateway.format_for_waybar().as_str(), "E502");
    assert_eq!(ErrorCode::NotFound.format_for_waybar().as_str(), "E404");
    assert_eq!(ErrorCode::UnprocessableEntity.format_for_waybar().as_str(), "E422");
}

#[test]
fn descriptions_name_the_failure() {
    assert_eq!(ErrorCode::ServiceUnavailable.description(), "D-Bus interface not available");
    assert_eq!(ErrorCode::BadGateway.description(), "D-Bus connection failed");
    assert_eq!(ErrorCode::NotFound.description(), "Interface or member not found");
    assert_eq!(ErrorCode::UnprocessableEntity.description(), "Invalid message format");
}

#[test]
fn permanence_depends_on_kind_alone() {
    assert!(AppError::not_found("a".to_string()).is_permanent());
    assert!(AppError::not_found("b".to_string()).is_permanent());
    assert!(AppError::message_processing("a".to_string()).is_permanent());
    assert!(!AppError::connection_failed("a".to_string()).is_permanent());
    assert!(!AppError::service_unavailable("a".to_string()).is_permanent());
}

#[test]
fn constructors_pick_their_codes() {
    assert_eq!(AppError::connection_failed(String::new()).error_code(), ErrorCode::BadGateway);
    assert_eq!(AppError::not_found(String::new()).error_code(), ErrorCode::NotFound);
    assert_eq!(
        AppError::message_processing(String::new()).error_code(),
        ErrorCode::UnprocessableEntity
    );
    assert_eq!(
        AppError::service_unavailable(String::new()).error_code(),
        ErrorCode::ServiceUnavailable
    );
    assert_eq!(
        AppError::General(ErrorCode::NotFound, String::new()).error_code(),
        ErrorCode::NotFound
    );
}

#[test]
fn method_error_named_not_found_is_404() {
    let fault = BusFault {
        kind: BusFaultKind::MethodError("org.freedesktop.DBus.Error.NotFound".to_string()),
        text: "org.freedesktop.DBus.Error.NotFound: no details".to_string(),
    };
    let e = classify(&fault);
    assert_eq!(e.error_code(), ErrorCode::NotFound);
    match e {
        AppError::NotFound(msg) => {
            assert_eq!(msg, "D-Bus method not found: org.freedesktop.DBus.Error.NotFound: no details");
        }
        other => panic!("unexpected classification: {:?}", other),
    }
}

#[test]
fn method_error_named_service_unknown_is_503() {
    let fault = BusFault {
        kind: BusFaultKind::MethodError("org.freedesktop.DBus.Error.ServiceUnknown".to_string()),
        text: "the name is not activatable".to_string(),
    };
    let e = classify(&fault);
    assert_eq!(e.error_code(), ErrorCode::ServiceUnavailable);
}

#[test]
fn interface_not_found_is_503() {
    let fault = BusFault {
        kind: BusFaultKind::InterfaceNotFound,
        text: "Interface not found".to_string(),
    };
    let e = classify(&fault);
    assert_eq!(e.error_code(), ErrorCode::ServiceUnavailable);
}

#[test]
fn marker_in_rendering_is_503() {
    let fault = BusFault {
        kind: BusFaultKind::Other,
        text: "failure: service does not exist".to_string(),
    };
    let e = classify(&fault);
    assert_eq!(e.error_code(), ErrorCode::ServiceUnavailable);
    match e {
        AppError::General(code, msg) => {
            assert_eq!(code, ErrorCode::ServiceUnavailable);
            assert_eq!(msg, "D-Bus service not available: failure: service does not exist");
        }
        other => panic!("unexpected classification: {:?}", other),
    }
}

#[test]
fn unmarked_failure_is_a_connection_fault() {
    let fault = BusFault {
        kind: BusFaultKind::Other,
        text: "address error: no such file".to_string(),
    };
    let e = classify(&fault);
    assert_eq!(e.error_code(), ErrorCode::BadGateway);
    match e {
        AppError::Connection(msg) => assert_eq!(msg, "address error: no such file"),
        other => panic!("unexpected classification: {:?}", other),
    }
}

#[test]
fn zbus_interface_not_found_classifies_as_503() {
    let e = classify_zbus_error(&zbus::Error::InterfaceNotFound);
    assert_eq!(e.error_code(), ErrorCode::ServiceUnavailable);
}

#[test]
fn zbus_failure_with_marker_classifies_as_503() {
    let e = classify_zbus_error(&zbus::Error::Failure("No such service: com.example".to_string()));
    assert_eq!(e.error_code(), ErrorCode::ServiceUnavailable);
}

#[test]
fn zbus_plain_failure_classifies_as_502() {
    let e = classify_zbus_error(&zbus::Error::NameTaken);
    assert_eq!(e.error_code(), ErrorCode::BadGateway);
    match e {
        AppError::Connection(msg) => assert_eq!(msg, "name already taken on the bus"),
        other => panic!("unexpected classification: {:?}", other),
    }
}
