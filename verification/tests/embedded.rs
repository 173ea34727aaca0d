use led_command::embedded::{try_read_colour, try_read_u16, try_write_colour, try_write_u16};
use led_command::{Command, CommandError};

#[test]
fn given_valid_slice_reads_u16() {
    let val = 666_u16;
    let parsed = try_read_u16(&val.to_be_bytes()).expect("Deserialization fail");
    assert_eq!(val, parsed);
}

#[test]
fn given_invalid_slice_returns_error() {
    let val = 666_u16;
    let outcome = try_read_u16(&val.to_be_bytes()[..1]);
    assert!(outcome.is_err());
    assert_eq!(outcome.unwrap_err(), CommandError::MalformedPayload);
}

#[test]
fn given_valid_slice_reads_colour() {
    let colour: &[u8] = &[254, 0, 254];
    let parsed = try_read_colour(colour).expect("Deserialization fail");
    assert_eq!((colour[0], colour[1], colour[2]), parsed);
}

#[test]
fn given_invalid_col_slice_returns_error() {
    let colour: &[u8] = &[254, 0, 254];
    let outcome = try_read_colour(&colour[..1]);
    assert!(outcome.is_err());
    assert_eq!(outcome.unwrap_err(), CommandError::MalformedPayload);
}

#[test]
fn given_buf_too_small_fails_to_write_u16() {
    let mut buf = [0_u8; 1];
    let outcome = try_write_u16(666, &mut buf);
    assert!(outcome.is_err());
    assert_eq!(outcome.unwrap_err(), CommandError::BufferTooSmall);
}

#[test]
fn given_valid_buf_writes_u16() {
    let val = 666_u16;
    let mut buf = [0_u8; 2];
    let outcome = try_write_u16(val, &mut buf);
    assert!(outcome.is_ok());
    assert_eq!(&val.to_be_bytes(), &buf[..]);
}

#[test]
fn given_buf_too_small_fails_to_write_colour() {
    let mut buf = [0_u8; 1];
    let outcome = try_write_colour((1, 1, 1), &mut buf);
    assert!(outcome.is_err());
    assert_eq!(outcome.unwrap_err(), CommandError::BufferTooSmall);
}

#[test]
fn given_valid_buf_writes_colour() {
    let colour = (254, 0, 254);
    let mut buf = [0_u8; 3];
    let outcome = try_write_colour(colour, &mut buf);
    assert!(outcome.is_ok());
    assert_eq!(&[colour.0, colour.1, colour.2], &buf[..]);
}

#[test]
fn e2e_const() {
    let cmd: Command<&[u8]> = Command::Constant {
        led_count: 257,
        colour: (254, 0, 254),
    };
    let mut buf = [0_u8; 128];
    let serialized = cmd.try_write_bytes(&mut buf);
    assert!(serialized.is_ok());
    let len = serialized.unwrap();
    let deserialized = Command::try_from(&buf[..len]);
    assert!(deserialized.is_ok());
    assert_eq!(deserialized.unwrap(), cmd);
}

#[test]
fn e2e_health() {
    let cmd: Command<&[u8]> = Command::Health;
    let mut buf = [0_u8; 128];
    let serialized = cmd.try_write_bytes(&mut buf);
    assert!(serialized.is_ok());
    let len = serialized.unwrap();
    let deserialized = Command::try_from(&buf[..len]);
    assert!(deserialized.is_ok());
    assert_eq!(deserialized.unwrap(), cmd);
}

#[test]
fn e2e_pulse() {
    let cmd: Command<&[u8]> = Command::Pulse {
        led_count: 300,
        start: (0, 0, 0),
        end: (255, 0, 0),
        frames: 60,
        period: 1000,
    };
    let mut buf = [0_u8; 128];
    let serialized = cmd.try_write_bytes(&mut buf);
    assert!(serialized.is_ok());
    let len = serialized.unwrap();
    let deserialized = Command::try_from(&buf[..len]);
    assert!(deserialized.is_ok());
    assert_eq!(deserialized.unwrap(), cmd);
}

#[test]
fn e2e_stream() {
    let cmd = Command::Stream([127, 127, 127, 0, 0, 0, 127, 127, 127, 0, 0, 0].as_ref());
    let mut buf = [0_u8; 128];
    let serialized = cmd.try_write_bytes(&mut buf);
    assert!(serialized.is_ok());
    let len = serialized.unwrap();
    let deserialized = Command::try_from(&buf[..len]);
    assert!(deserialized.is_ok());
    assert_eq!(deserialized.unwrap(), cmd);
}
