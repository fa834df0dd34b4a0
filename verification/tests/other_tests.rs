use fuchsia_support::at_commands::{DeserializeError, SerializeError};
use fuchsia_support::sdk_args::{SdkCommand, SubCommand, VersionCommand};
use std::io;

#[test]
fn io_errors_convert() {
    let e: DeserializeError = io::Error::new(io::ErrorKind::UnexpectedEof, "eof").into();
    match e {
        DeserializeError::IoError(inner) => assert_eq!(inner.kind(), io::ErrorKind::UnexpectedEof),
        other => panic!("unexpected {:?}", other),
    }
    let e = SerializeError::from(io::Error::new(io::ErrorKind::BrokenPipe, "pipe"));
    let SerializeError::IoError(inner) = e;
    assert_eq!(inner.kind(), io::ErrorKind::BrokenPipe);
}

#[test]
fn deserialize_error_variants_carry_text() {
    let e = DeserializeError::UnknownCommand("AT+FOO".to_string());
    assert!(format!("{:?}", e).contains("AT+FOO"));
    let e = DeserializeError::ParseError("bad".to_string());
    assert!(matches!(e, DeserializeError::ParseError(ref s) if s == "bad"));
}

#[test]
fn sdk_version_command() {
    let cmd = SdkCommand { sub: SubCommand::Version(VersionCommand {}) };
    assert_eq!(cmd, SdkCommand { sub: SubCommand::Version(VersionCommand {}) });
    assert_eq!(cmd.sub, SubCommand::Version(VersionCommand {}));
}
