use hueclient::{
    next_registration_step, Bridge, BridgeAddress, BridgeErrorInner, BridgeErrorV2,
    BridgeResponse, BridgeResponseV2, ErrorEnvelope, HueError, RegistrationStep, RetryPolicy,
    SuccessResponse, UnauthBridge, Username,
};

fn success(name: &str) -> SuccessResponse<Username> {
    SuccessResponse { success: Username { username: name.to_string() } }
}

fn error_entry(code: usize, description: &str) -> ErrorEnvelope {
    ErrorEnvelope {
        error: BridgeErrorInner {
            address: "/api".to_string(),
            description: description.to_string(),
            code,
        },
    }
}

#[test]
fn empty_list_is_a_protocol_error() {
    let r = BridgeResponse::<SuccessResponse<Username>>::List(vec![]).get();
    assert_eq!(r.err(), Some(HueError::ProtocolError { msg: "expected non-empty array".to_string() }));
    let r = BridgeResponse::<SuccessResponse<Username>>::Errors(vec![]).get();
    assert_eq!(r.err(), Some(HueError::ProtocolError { msg: "expected non-empty array".to_string() }));
}

#[test]
fn success_list_yields_its_entry() {
    let r = BridgeResponse::List(vec![success("abc")]).get().unwrap();
    assert_eq!(r.success.username, "abc");
}

#[test]
fn last_entry_of_a_list_wins() {
    let r = BridgeResponse::List(vec![success("first"), success("second")]).get().unwrap();
    assert_eq!(r.success.username, "second");
}

#[test]
fn single_element_is_returned_as_is() {
    let r = BridgeResponse::Element(success("solo")).get().unwrap();
    assert_eq!(r.success.username, "solo");
}

#[test]
fn link_button_error_keeps_its_code() {
    let r = BridgeResponse::<SuccessResponse<Username>>::Errors(vec![error_entry(101, "link button not pressed")]).get();
    assert_eq!(r.err(), Some(HueError::BridgeError { code: 101, msg: "link button not pressed".to_string() }));
}

#[test]
fn last_error_of_a_list_wins() {
    let r = BridgeResponse::<u32>::Errors(vec![error_entry(1, "unauthorized user"), error_entry(7, "invalid value")]).get();
    assert_eq!(r.err(), Some(HueError::BridgeError { code: 7, msg: "invalid value".to_string() }));
}

#[test]
fn v2_without_errors_returns_all_data() {
    let resp = BridgeResponseV2 { errors: vec![], data: vec![3u32, 1, 2] };
    assert_eq!(resp.get(), Ok(vec![3, 1, 2]));
    let empty = BridgeResponseV2::<u32> { errors: vec![], data: vec![] };
    assert_eq!(empty.get(), Ok(vec![]));
}

#[test]
fn v2_reports_its_last_error() {
    let resp = BridgeResponseV2 {
        errors: vec![
            BridgeErrorV2 { description: "first".to_string() },
            BridgeErrorV2 { description: "resource not found".to_string() },
        ],
        data: vec![1u32],
    };
    assert_eq!(resp.get(), Err(HueError::BridgeErrorV2 { description: "resource not found".to_string() }));
}

#[test]
fn registration_grants_the_key() {
    let ip = BridgeAddress::V4(192, 168, 0, 4);
    let bridge = Bridge::for_ip(ip);
    assert_eq!(bridge, UnauthBridge { ip });
    let registered = bridge.register_application(BridgeResponse::List(vec![success("abc")])).unwrap();
    assert_eq!(registered, Bridge { ip, application_key: "abc".to_string() });
}

#[test]
fn registration_before_the_button_is_pressed() {
    let bridge = Bridge::for_ip(BridgeAddress::V4(10, 0, 0, 2));
    let r = bridge.register_application(BridgeResponse::Errors(vec![error_entry(101, "link button not pressed")]));
    assert_eq!(r, Err(HueError::BridgeError { code: 101, msg: "link button not pressed".to_string() }));
}

#[test]
fn attaching_keys() {
    let ip = BridgeAddress::V4(10, 0, 0, 2);
    let b = Bridge::for_ip(ip).with_user("key-1".to_string());
    assert_eq!(b, Bridge { ip, application_key: "key-1".to_string() });
    let b = b.with_application_key("key-2".to_string());
    assert_eq!(b.application_key, "key-2");
    let again = b.register_application(BridgeResponse::Element(success("key-3"))).unwrap();
    assert_eq!(again.application_key, "key-3");
    assert_eq!(again.ip, ip);
}

#[test]
fn retry_only_while_the_button_is_not_pressed() {
    let policy = RetryPolicy::until_pressed();
    assert_eq!(policy, RetryPolicy { max_attempts: None, delay_ms: 5000 });
    let pressed_later = Err(HueError::BridgeError { code: 101, msg: "link button not pressed".to_string() });
    assert_eq!(next_registration_step(&policy, 40, pressed_later), RegistrationStep::RetryAfter(5000));
    let refused = HueError::BridgeError { code: 1, msg: "unauthorized user".to_string() };
    assert_eq!(next_registration_step(&policy, 1, Err(refused.clone())), RegistrationStep::GiveUp(refused));
    let b = Bridge { ip: BridgeAddress::V4(1, 2, 3, 4), application_key: "k".to_string() };
    assert_eq!(next_registration_step(&policy, 1, Ok(b.clone())), RegistrationStep::Registered(b));
}

#[test]
fn bounded_retries_stop() {
    let policy = RetryPolicy { max_attempts: Some(3), delay_ms: 100 };
    let e = HueError::BridgeError { code: 101, msg: String::new() };
    assert_eq!(next_registration_step(&policy, 2, Err(e.clone())), RegistrationStep::RetryAfter(100));
    assert_eq!(next_registration_step(&policy, 3, Err(e.clone())), RegistrationStep::GiveUp(e));
}
