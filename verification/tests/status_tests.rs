use vineyard::status::{
    vineyard_assert, vineyard_assert_typename, vineyard_check_ok, StatusCode, VineyardError,
};

#[test]
fn new_is_ok_only_for_ok_kind() {
    assert!(VineyardError::new(StatusCode::OK, "m").ok());
    assert!(!VineyardError::new(StatusCode::Invalid, "m").ok());
    assert!(!VineyardError::new(StatusCode::KeyError, "m").ok());
    assert!(!VineyardError::new(StatusCode::ObjectSpilled, "m").ok());
    assert!(!VineyardError::new(StatusCode::StreamOpened, "m").ok());
    assert!(!VineyardError::new(StatusCode::UnknownError, "m").ok());
}

#[test]
fn wrap_is_noop_on_ok() {
    let e = VineyardError::new(StatusCode::OK, "fine");
    let w = e.wrap("extra");
    assert!(w.ok());
    assert_eq!(w.message().as_str(), "fine");
}

#[test]
fn wrap_preserves_kind_and_concatenates() {
    let e = VineyardError::new(StatusCode::Invalid, "a");
    let w = e.wrap("b");
    assert!(w.is_invalid());
    assert_eq!(w.message().as_str(), "a: b");
    let w2 = w.wrap("c");
    assert!(w2.is_invalid());
    assert_eq!(w2.message().as_str(), "a: b: c");
}

#[test]
fn assert_typename_equal_succeeds() {
    assert!(vineyard_assert_typename("Tensor", "Tensor").is_ok());
}

#[test]
fn assert_typename_mismatch_fails_with_template() {
    let e = vineyard_assert_typename("Tensor", "DataFrame").unwrap_err();
    assert!(e.is_object_type_error());
    assert_eq!(e.message().as_str(), "expect typename 'Tensor', but got 'DataFrame'");
}

#[test]
fn vineyard_assert_reports_assertion_failed() {
    assert!(vineyard_assert(true, "fine").is_ok());
    let e = vineyard_assert(false, "broken").unwrap_err();
    assert!(e.is_assertion_failed());
    assert_eq!(e.message().as_str(), "assertion failed: broken");
}

#[test]
fn vineyard_check_ok_accepts_success() {
    vineyard_check_ok(Ok::<u64, VineyardError>(7));
}

#[test]
fn object_spilled_messages_name_the_object() {
    let e = VineyardError::object_spilled(42);
    assert!(e.is_object_spilled());
    assert!(e.message().contains("42"));
    assert_eq!(e.message().as_str(), "object '42' has already been spilled");
    let e2 = VineyardError::object_not_spilled(42);
    assert!(e2.is_object_not_spilled());
    assert!(e2.message().contains("42"));
    assert_eq!(e2.message().as_str(), "object '42' hasn't been spilled yet");
}

#[test]
fn meta_tree_invalid_group_is_exact() {
    let yes = [
        VineyardError::meta_tree_invalid("m"),
        VineyardError::meta_tree_name_invalid("m"),
        VineyardError::meta_tree_type_invalid("m"),
        VineyardError::meta_tree_link_invalid("m"),
    ];
    for e in yes.iter() {
        assert!(e.is_meta_tree_invalid());
        assert!(!e.is_meta_tree_element_not_exists());
    }
    let no = [
        VineyardError::new(StatusCode::OK, "m"),
        VineyardError::invalid("m"),
        VineyardError::meta_tree_name_not_exists("m"),
        VineyardError::meta_tree_type_not_exists("m"),
        VineyardError::meta_tree_subtree_not_exists("m"),
        VineyardError::unknown_error("m"),
    ];
    for e in no.iter() {
        assert!(!e.is_meta_tree_invalid());
    }
}

#[test]
fn meta_tree_element_not_exists_group_is_exact() {
    let yes = [
        VineyardError::meta_tree_name_not_exists("m"),
        VineyardError::meta_tree_type_not_exists("m"),
        VineyardError::meta_tree_subtree_not_exists("m"),
    ];
    for e in yes.iter() {
        assert!(e.is_meta_tree_element_not_exists());
    }
    assert!(!VineyardError::meta_tree_invalid("m").is_meta_tree_element_not_exists());
}

#[test]
fn constructors_carry_their_kinds() {
    assert!(VineyardError::invalid("m").is_invalid());
    assert!(VineyardError::key_error("m").is_key_error());
    assert!(VineyardError::type_error("m").is_type_error());
    assert!(VineyardError::io_error("m").is_io_error());
    assert!(VineyardError::end_of_file("m").is_end_of_file());
    assert!(VineyardError::not_implemented("m").is_not_implemented());
    assert!(VineyardError::assertion_failed("m").is_assertion_failed());
    assert!(VineyardError::user_input_error("m").is_user_input_error());
    assert!(VineyardError::object_exists("m").is_object_exists());
    assert!(VineyardError::object_not_exists("m").is_object_not_exists());
    assert!(VineyardError::object_sealed("m").is_object_sealed());
    assert!(VineyardError::object_not_sealed("m").is_object_not_sealed());
    assert!(VineyardError::object_is_blob("m").is_object_is_blob());
    assert!(VineyardError::object_type_error("a", "b").is_object_type_error());
    assert!(VineyardError::vineyard_server_not_ready("m").is_vineyard_server_not_ready());
    assert!(VineyardError::arrow_error("m").is_arrow_error());
    assert!(VineyardError::connection_failed("m").is_connection_failed());
    assert!(VineyardError::new(StatusCode::ConnectionError, "m").is_connection_error());
    assert!(VineyardError::etcd_error("m").is_etcd_error());
    assert!(VineyardError::redis_error("m").code().to_value() == 37);
    assert!(VineyardError::already_stopped("m").is_already_stopped());
    assert!(VineyardError::not_enough_memory("m").is_not_enough_memory());
    assert!(VineyardError::stream_drained("m").is_stream_drained());
    assert!(VineyardError::stream_failed("m").is_stream_failed());
    assert!(VineyardError::invalid_stream_state("m").is_invalid_stream_state());
    assert!(VineyardError::stream_opened("m").is_stream_opened());
    assert!(VineyardError::global_object_invalid("m").is_global_object_invalid());
    assert!(VineyardError::unknown_error("m").is_unknown_error());
    assert_eq!(VineyardError::key_error("msg").message().as_str(), "msg");
}

#[test]
fn status_tags_are_stable() {
    assert_eq!(StatusCode::OK.to_value(), 0);
    assert_eq!(StatusCode::Invalid.to_value(), 1);
    assert_eq!(StatusCode::UserInputError.to_value(), 8);
    assert_eq!(StatusCode::ObjectExists.to_value(), 11);
    assert_eq!(StatusCode::ObjectNotSpilled.to_value(), 18);
    assert_eq!(StatusCode::MetaTreeInvalid.to_value(), 21);
    assert_eq!(StatusCode::MetaTreeSubtreeNotExists.to_value(), 27);
    assert_eq!(StatusCode::VineyardServerNotReady.to_value(), 31);
    assert_eq!(StatusCode::RedisError.to_value(), 37);
    assert_eq!(StatusCode::NotEnoughMemory.to_value(), 41);
    assert_eq!(StatusCode::StreamOpened.to_value(), 45);
    assert_eq!(StatusCode::GlobalObjectInvalid.to_value(), 51);
    assert_eq!(StatusCode::UnknownError.to_value(), 255);
}

#[test]
fn status_tags_round_trip() {
    let codes = [
        StatusCode::OK,
        StatusCode::Invalid,
        StatusCode::KeyError,
        StatusCode::TypeError,
        StatusCode::IOError,
        StatusCode::EndOfFile,
        StatusCode::NotImplemented,
        StatusCode::AssertionFailed,
        StatusCode::UserInputError,
        StatusCode::ObjectExists,
        StatusCode::ObjectNotExists,
        StatusCode::ObjectSealed,
        StatusCode::ObjectNotSealed,
        StatusCode::ObjectIsBlob,
        StatusCode::ObjectTypeError,
        StatusCode::ObjectSpilled,
        StatusCode::ObjectNotSpilled,
        StatusCode::MetaTreeInvalid,
        StatusCode::MetaTreeTypeInvalid,
        StatusCode::MetaTreeTypeNotExists,
        StatusCode::MetaTreeNameInvalid,
        StatusCode::MetaTreeNameNotExists,
        StatusCode::MetaTreeLinkInvalid,
        StatusCode::MetaTreeSubtreeNotExists,
        StatusCode::VineyardServerNotReady,
        StatusCode::ArrowError,
        StatusCode::ConnectionFailed,
        StatusCode::ConnectionError,
        StatusCode::EtcdError,
        StatusCode::AlreadyStopped,
        StatusCode::RedisError,
        StatusCode::NotEnoughMemory,
        StatusCode::StreamDrained,
        StatusCode::StreamFailed,
        StatusCode::InvalidStreamState,
        StatusCode::StreamOpened,
        StatusCode::GlobalObjectInvalid,
        StatusCode::UnknownError,
    ];
    for c in codes.iter() {
        assert_eq!(StatusCode::from_value(c.to_value()), Some(*c));
    }
    assert_eq!(StatusCode::from_value(9), None);
    assert_eq!(StatusCode::from_value(100), None);
}

#[test]
fn external_failures_map_to_fixed_kinds() {
    let json_err = serde_json::from_str::<serde_json::Value>("not json").unwrap_err();
    let e = VineyardError::from_json_error(&json_err);
    assert!(e.is_meta_tree_invalid());

    let io_err = std::io::Error::new(std::io::ErrorKind::Other, "boom");
    let e = VineyardError::from_io_error(&io_err);
    assert!(e.is_io_error());
    assert!(e.message().starts_with("internal io error: "));
    assert!(e.message().len() > "internal io error: ".len());

    let pi = "abc".parse::<i64>().unwrap_err();
    let e = VineyardError::from_parse_int_error(&pi);
    assert!(e.is_io_error());
    assert!(e.message().starts_with("parse int error: "));

    let pf = "abc".parse::<f64>().unwrap_err();
    let e = VineyardError::from_parse_float_error(&pf);
    assert!(e.is_io_error());
    assert!(e.message().starts_with("parse float error: "));

    let tf = u8::try_from(300i32).unwrap_err();
    let e = VineyardError::from_try_from_int_error(&tf);
    assert!(e.is_io_error());
    assert!(e.message().starts_with("try from int error: "));
}

#[test]
fn decimal_rendering_is_exact() {
    assert_eq!(vineyard::text::u64_to_string(0), "0");
    assert_eq!(vineyard::text::u64_to_string(7), "7");
    assert_eq!(vineyard::text::u64_to_string(10), "10");
    assert_eq!(vineyard::text::u64_to_string(90210), "90210");
    assert_eq!(
        vineyard::text::u64_to_string(u64::MAX),
        "18446744073709551615"
    );
}
