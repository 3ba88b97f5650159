use serial::{Error, ErrorKind};

#[test]
fn new_error_keeps_kind_and_description() {
    let e = Error::new(ErrorKind::NoDevice, "device is busy");
    assert_eq!(e.kind(), ErrorKind::NoDevice);
    assert_eq!(e.description(), "device is busy");
    let owned = Error::new(ErrorKind::InvalidInput, &String::from("bad name"));
    assert_eq!(owned.kind(), ErrorKind::InvalidInput);
    assert_eq!(owned.description(), "bad name");
}

#[test]
fn io_error_becomes_io_kind_with_its_message() {
    let io = std::io::Error::new(std::io::ErrorKind::TimedOut, "line went quiet");
    let e = Error::from(io);
    assert_eq!(e.kind(), ErrorKind::Io(std::io::ErrorKind::TimedOut));
    assert_eq!(e.description(), "line went quiet");
}

#[test]
fn no_device_becomes_not_found() {
    let io: std::io::Error = Error::new(ErrorKind::NoDevice, "unplugged").into();
    assert_eq!(io.kind(), std::io::ErrorKind::NotFound);
    assert_eq!(io.to_string(), "unplugged");
}

#[test]
fn invalid_input_becomes_host_invalid_input() {
    let io: std::io::Error = Error::new(ErrorKind::InvalidInput, "no such rate").into();
    assert_eq!(io.kind(), std::io::ErrorKind::InvalidInput);
    assert_eq!(io.to_string(), "no such rate");
}

#[test]
fn io_kind_round_trip_is_lossless() {
    let original = Error::new(ErrorKind::Io(std::io::ErrorKind::BrokenPipe), "pipe closed");
    let io: std::io::Error = original.into();
    let back = Error::from(io);
    assert_eq!(back.kind(), ErrorKind::Io(std::io::ErrorKind::BrokenPipe));
    assert_eq!(back.description(), "pipe closed");
}

#[test]
fn no_device_round_trip_collapses_to_io() {
    let io: std::io::Error = Error::new(ErrorKind::NoDevice, "gone").into();
    let back = Error::from(io);
    assert_eq!(back.kind(), ErrorKind::Io(std::io::ErrorKind::NotFound));
    assert_eq!(back.description(), "gone");
}

#[test]
fn io_parts_follow_the_kind_mapping() {
    let (kind, description) = Error::new(ErrorKind::NoDevice, "absent").into_io_parts();
    assert_eq!(kind, std::io::ErrorKind::NotFound);
    assert_eq!(description, "absent");
    let e = Error::from_io_parts(std::io::ErrorKind::Interrupted, String::from("again"));
    assert_eq!(e.kind(), ErrorKind::Io(std::io::ErrorKind::Interrupted));
    assert_eq!(e.description(), "again");
}

#[test]
fn with_description_keeps_the_text() {
    let e = Error::with_description(ErrorKind::Io(std::io::ErrorKind::Other), String::from("odd"));
    assert_eq!(e.kind(), ErrorKind::Io(std::io::ErrorKind::Other));
    assert_eq!(e.description(), "odd");
    let io: std::io::Error = e.into();
    let back = Error::from(io);
    assert_eq!(back.kind(), ErrorKind::Io(std::io::ErrorKind::Other));
    assert_eq!(back.description(), "odd");
}

#[test]
fn result_alias_carries_library_errors() {
    let r: serial::Result<u8> = Err(Error::new(ErrorKind::NoDevice, "none"));
    assert_eq!(r.unwrap_err().description(), "none");
}
