use switchrs::codec::{DataPoint, DpsValue, RawResponse};
use switchrs::command::{DeviceType, SwitchCommand};
use switchrs::executor::{
    handle_tuya_err, Execution, Handled, Operation, Request, Retry, TransportError,
    TransportReply, TuyaResult, ATTEMPTS,
};
use switchrs::notice::{CommandError, Notice};
use switchrs::registry::Device;

fn device(name: &str, product: &str) -> Device {
    Device {
        name: name.to_string(),
        id: format!("id-{}", name),
        key: format!("key-{}", name),
        sname: None,
        ip: "192.168.0.7".to_string(),
        product_name: product.to_string(),
    }
}

fn reset() -> TransportReply {
    TransportReply::Failed(TransportError::ConnectionReset)
}

fn answered(value: DpsValue) -> TransportReply {
    TransportReply::Response(RawResponse::Structured(vec![DataPoint {
        key: "1".to_string(),
        value,
    }]))
}

#[test]
fn three_attempts_per_device() {
    assert_eq!(ATTEMPTS, 3);
}

#[test]
fn timeout_is_not_retried() {
    for retries in [3, 2, 1] {
        assert_eq!(
            handle_tuya_err(&TransportError::Timeout, retries),
            Handled { retry: Retry::NoRetry, hint: Some(Notice::NotResponding) }
        );
    }
}

#[test]
fn reset_is_retried_and_explained_on_the_last_attempt() {
    assert_eq!(
        handle_tuya_err(&TransportError::ConnectionReset, 3),
        Handled { retry: Retry::Retry, hint: None }
    );
    assert_eq!(
        handle_tuya_err(&TransportError::ConnectionReset, 2),
        Handled { retry: Retry::Retry, hint: None }
    );
    assert_eq!(
        handle_tuya_err(&TransportError::ConnectionReset, 1),
        Handled { retry: Retry::Retry, hint: Some(Notice::CloseApp) }
    );
}

#[test]
fn other_errors_are_retried_and_shown_on_the_last_attempt() {
    let err = TransportError::Other("connection refused".to_string());
    assert_eq!(handle_tuya_err(&err, 3), Handled { retry: Retry::Retry, hint: None });
    assert_eq!(
        handle_tuya_err(&err, 1),
        Handled {
            retry: Retry::Retry,
            hint: Some(Notice::Transport { message: "connection refused".to_string() })
        }
    );
}

#[test]
fn request_for_a_switch_command_is_a_control_with_the_data_point() {
    let lamp = device("Lamp", "Smart Socket");
    assert_eq!(
        lamp.request(&SwitchCommand::On, "secret", 1700000000),
        Ok(Request {
            operation: Operation::Control,
            version: "ver3.3".to_string(),
            ip: "192.168.0.7".to_string(),
            key: "key-Lamp".to_string(),
            dev_id: "id-Lamp".to_string(),
            gw_id: "secret".to_string(),
            t: 1700000000,
            dps: Some(DataPoint { key: "1".to_string(), value: DpsValue::Bool(true) }),
        })
    );
}

#[test]
fn request_for_status_is_a_query_without_data_point() {
    let blind = device("Blind", "Curtain Switch 2");
    let request = blind.request(&SwitchCommand::Status, "s", 0).unwrap();
    assert_eq!(request.operation, Operation::Query);
    assert_eq!(request.dps, None);
    assert_eq!(request.gw_id, "s");
    assert_eq!(request.t, 0);
}

#[test]
fn request_for_a_blind_carries_the_family_code() {
    let old = device("A", "curtain switch");
    let new = device("B", "curtain switch 2");
    assert_eq!(
        old.request(&SwitchCommand::Close, "s", 1).unwrap().dps.unwrap().value,
        DpsValue::Text("2".to_string())
    );
    assert_eq!(
        new.request(&SwitchCommand::Close, "s", 1).unwrap().dps.unwrap().value,
        DpsValue::Text("close".to_string())
    );
}

#[test]
fn requests_for_one_device_and_command_differ_in_time_only() {
    let lamp = device("Lamp", "Smart Socket");
    let first = lamp.request(&SwitchCommand::Off, "secret", 10).unwrap();
    let second = lamp.request(&SwitchCommand::Off, "secret", 99).unwrap();
    assert_eq!(second, Request { t: 99, ..first });
}

#[test]
fn no_request_for_an_unknown_product_type() {
    let odd = device("Odd", "Toaster");
    assert_eq!(
        odd.request(&SwitchCommand::On, "s", 1),
        Err(CommandError::InvalidDeviceType("Invalid device type: Toaster".to_string()))
    );
    assert_eq!(
        odd.family_for(&SwitchCommand::Status),
        Err(CommandError::InvalidDeviceType("Invalid device type: Toaster".to_string()))
    );
}

#[test]
fn no_request_for_an_incompatible_command() {
    let lamp = device("Lamp", "Smart Socket");
    assert_eq!(
        lamp.request(&SwitchCommand::Open, "s", 1),
        Err(CommandError::Incompatible {
            command: SwitchCommand::Open,
            family: DeviceType::Switch
        })
    );
    let blind = device("Blind", "Curtain Switch");
    assert_eq!(
        blind.request(&SwitchCommand::On, "s", 1),
        Err(CommandError::Incompatible { command: SwitchCommand::On, family: DeviceType::Blind })
    );
    assert_eq!(blind.family_for(&SwitchCommand::Stop), Ok(DeviceType::Blind));
}

#[test]
fn delivered_control_succeeds_without_state() {
    let lamp = device("Lamp", "Smart Socket");
    let done = Execution { result: TuyaResult::EmptySuccess, hint: None };
    assert_eq!(lamp.execute_command(&SwitchCommand::On, &TransportReply::Accepted, 3), done);
    assert_eq!(
        lamp.execute_command(&SwitchCommand::Off, &answered(DpsValue::Bool(true)), 1),
        done
    );
    assert_eq!(
        lamp.execute_command(
            &SwitchCommand::Off,
            &TransportReply::Response(RawResponse::Text("{oops".to_string())),
            2
        ),
        done
    );
}

#[test]
fn answered_query_reports_the_state() {
    let lamp = device("Lamp", "Smart Socket");
    assert_eq!(
        lamp.execute_command(&SwitchCommand::Status, &answered(DpsValue::Bool(false)), 3),
        Execution { result: TuyaResult::Success(SwitchCommand::Off), hint: None }
    );
    let blind = device("Blind", "Curtain Switch");
    assert_eq!(
        blind.execute_command(
            &SwitchCommand::Status,
            &TransportReply::Response(RawResponse::Text("{\"dps\":{\"1\":\"1\"}}".to_string())),
            2
        ),
        Execution { result: TuyaResult::Success(SwitchCommand::Open), hint: None }
    );
}

#[test]
fn query_without_a_known_state_fails_for_good() {
    let lamp = device("Lamp", "Smart Socket");
    let invalid = Execution { result: TuyaResult::Failure, hint: Some(Notice::InvalidResponse) };
    assert_eq!(
        lamp.execute_command(&SwitchCommand::Status, &answered(DpsValue::Other), 3),
        invalid
    );
    assert_eq!(
        lamp.execute_command(
            &SwitchCommand::Status,
            &TransportReply::Response(RawResponse::Structured(vec![])),
            3
        ),
        invalid
    );
    assert_eq!(
        lamp.execute_command(&SwitchCommand::Status, &TransportReply::Accepted, 3),
        invalid
    );
}

#[test]
fn query_with_an_unreadable_text_fails_for_good() {
    let lamp = device("Lamp", "Smart Socket");
    assert_eq!(
        lamp.execute_command(
            &SwitchCommand::Status,
            &TransportReply::Response(RawResponse::Text("\u{1}\u{2}garbled".to_string())),
            3
        ),
        Execution { result: TuyaResult::Failure, hint: Some(Notice::Unsupported) }
    );
}

#[test]
fn transport_errors_are_classified() {
    let lamp = device("Lamp", "Smart Socket");
    assert_eq!(
        lamp.execute_command(&SwitchCommand::On, &reset(), 3),
        Execution { result: TuyaResult::Retry, hint: None }
    );
    assert_eq!(
        lamp.execute_command(&SwitchCommand::On, &reset(), 1),
        Execution { result: TuyaResult::Retry, hint: Some(Notice::CloseApp) }
    );
    assert_eq!(
        lamp.execute_command(
            &SwitchCommand::Status,
            &TransportReply::Failed(TransportError::Timeout),
            3
        ),
        Execution { result: TuyaResult::Failure, hint: Some(Notice::NotResponding) }
    );
    assert_eq!(
        lamp.execute_command(
            &SwitchCommand::On,
            &TransportReply::Failed(TransportError::Other("no route".to_string())),
            1
        ),
        Execution {
            result: TuyaResult::Retry,
            hint: Some(Notice::Transport { message: "no route".to_string() })
        }
    );
}

#[test]
fn device_that_cannot_take_the_command_fails_whatever_the_reply() {
    let lamp = device("Lamp", "Smart Socket");
    let refused = Execution {
        result: TuyaResult::Failure,
        hint: Some(Notice::Refused(CommandError::Incompatible {
            command: SwitchCommand::Stop,
            family: DeviceType::Switch,
        })),
    };
    assert_eq!(lamp.execute_command(&SwitchCommand::Stop, &TransportReply::Accepted, 3), refused);
    assert_eq!(lamp.execute_command(&SwitchCommand::Stop, &reset(), 3), refused);
    let odd = device("Odd", "Toaster");
    assert_eq!(
        odd.execute_command(&SwitchCommand::Status, &answered(DpsValue::Bool(true)), 3),
        Execution {
            result: TuyaResult::Failure,
            hint: Some(Notice::Refused(CommandError::InvalidDeviceType(
                "Invalid device type: Toaster".to_string()
            ))),
        }
    );
}

#[test]
fn request_can_be_stamped_again() {
    let lamp = device("Lamp", "Smart Socket");
    let first = lamp.request(&SwitchCommand::On, "secret", 10).unwrap();
    let later = first.clone().stamped(75);
    assert_eq!(later.t, 75);
    assert_eq!(later, Request { t: 75, ..first });
    assert_eq!(later, lamp.request(&SwitchCommand::On, "secret", 75).unwrap());
}
