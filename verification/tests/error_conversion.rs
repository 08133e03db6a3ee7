use interprocess_converse::{from_converse_result, Error};

#[test]
fn io_error_keeps_its_payload() {
    let e = async_io_converse::Error::Io(std::io::Error::new(std::io::ErrorKind::BrokenPipe, "pipe closed"));
    match Error::from(e) {
        Error::Io(inner) => {
            assert_eq!(inner.kind(), std::io::ErrorKind::BrokenPipe);
            assert_eq!(inner.to_string(), "pipe closed");
        }
        other => panic!("unexpected conversion: {:?}", other),
    }
}

#[test]
fn bincode_error_keeps_its_payload() {
    let e = async_io_converse::Error::Bincode(Box::new(bincode::ErrorKind::SizeLimit));
    match Error::from(e) {
        Error::Bincode(inner) => assert!(matches!(*inner, bincode::ErrorKind::SizeLimit)),
        other => panic!("unexpected conversion: {:?}", other),
    }
}

#[test]
fn received_too_large_maps_to_same_variant() {
    assert!(matches!(
        Error::from(async_io_converse::Error::ReceivedMessageTooLarge),
        Error::ReceivedMessageTooLarge
    ));
}

#[test]
fn sent_too_large_maps_to_same_variant() {
    assert!(matches!(
        Error::from(async_io_converse::Error::SentMessageTooLarge),
        Error::SentMessageTooLarge
    ));
}

#[test]
fn timeout_maps_to_same_variant() {
    assert!(matches!(Error::from(async_io_converse::Error::Timeout), Error::Timeout));
}

#[test]
fn read_half_dropped_maps_to_same_variant() {
    assert!(matches!(
        Error::from(async_io_converse::Error::ReadHalfDropped),
        Error::ReadHalfDropped
    ));
}

#[test]
fn into_goes_through_the_same_conversion() {
    let e: Error = async_io_converse::Error::Timeout.into();
    assert!(matches!(e, Error::Timeout));
}

#[test]
fn successful_result_passes_through() {
    let r: Result<u32, async_io_converse::Error> = Ok(42);
    assert!(matches!(from_converse_result(r), Ok(42)));
}

#[test]
fn failed_result_converts_its_error() {
    let r: Result<u32, async_io_converse::Error> = Err(async_io_converse::Error::Timeout);
    assert!(matches!(from_converse_result(r), Err(Error::Timeout)));
    let r: Result<u32, async_io_converse::Error> = Err(async_io_converse::Error::SentMessageTooLarge);
    assert!(matches!(from_converse_result(r), Err(Error::SentMessageTooLarge)));
}

#[test]
fn successful_result_keeps_a_non_copy_value() {
    let r: Result<String, async_io_converse::Error> = Ok(String::from("reply"));
    match from_converse_result(r) {
        Ok(s) => assert_eq!(s, "reply"),
        Err(e) => panic!("unexpected error: {:?}", e),
    }
}
