use std::io::{Error as IoError, ErrorKind as IoErrorKind};

use tokio_dl_stream_to_disk::error::{Error, ErrorKind};

#[test]
fn permission_denied_has_a_kind_of_its_own() {
    let err = Error::from(IoError::from(IoErrorKind::PermissionDenied));
    assert!(matches!(err.kind(), ErrorKind::PermissionDenied));
    assert!(err.into_inner_io().is_none());
}

#[test]
fn permission_denied_with_a_message_is_still_permission_denied() {
    let err = Error::from(IoError::new(IoErrorKind::PermissionDenied, "read-only volume"));
    assert!(matches!(err.kind(), ErrorKind::PermissionDenied));
}

#[test]
fn any_other_io_failure_is_carried_along() {
    let kinds = [
        IoErrorKind::NotFound,
        IoErrorKind::AlreadyExists,
        IoErrorKind::ConnectionReset,
        IoErrorKind::InvalidData,
        IoErrorKind::WriteZero,
        IoErrorKind::UnexpectedEof,
        IoErrorKind::Other,
    ];
    for kind in kinds {
        let err = Error::from(IoError::new(kind, "boom"));
        assert!(matches!(err.kind(), ErrorKind::IO(inner) if inner.kind() == kind));
        let inner = err.into_inner_io().unwrap();
        assert_eq!(inner.kind(), kind);
        assert_eq!(inner.to_string(), "boom");
    }
}

#[test]
fn new_keeps_the_kind() {
    assert!(matches!(Error::new(ErrorKind::FileExists).kind(), ErrorKind::FileExists));
    assert!(matches!(Error::new(ErrorKind::DirectoryMissing).kind(), ErrorKind::DirectoryMissing));
    assert!(matches!(Error::new(ErrorKind::PermissionDenied).kind(), ErrorKind::PermissionDenied));
    assert!(matches!(Error::new(ErrorKind::InvalidResponse).kind(), ErrorKind::InvalidResponse));
    let io = Error::new(ErrorKind::IO(IoError::new(IoErrorKind::PermissionDenied, "kept")));
    assert!(matches!(io.kind(), ErrorKind::IO(_)));
    let other = Error::new(ErrorKind::Other(String::from("why")));
    assert!(matches!(other.kind(), ErrorKind::Other(text) if text == "why"));
}

#[test]
fn into_inner_io_gives_only_io() {
    assert!(Error::new(ErrorKind::FileExists).into_inner_io().is_none());
    assert!(Error::new(ErrorKind::DirectoryMissing).into_inner_io().is_none());
    assert!(Error::new(ErrorKind::PermissionDenied).into_inner_io().is_none());
    assert!(Error::new(ErrorKind::InvalidResponse).into_inner_io().is_none());
    assert!(Error::new(ErrorKind::Other(String::from("why"))).into_inner_io().is_none());
    let inner = Error::new(ErrorKind::IO(IoError::new(IoErrorKind::BrokenPipe, "pipe")))
        .into_inner_io()
        .unwrap();
    assert_eq!(inner.kind(), IoErrorKind::BrokenPipe);
}

#[test]
fn into_inner_other_gives_only_other() {
    assert_eq!(Error::new(ErrorKind::FileExists).into_inner_other(), None);
    assert_eq!(Error::new(ErrorKind::DirectoryMissing).into_inner_other(), None);
    assert_eq!(Error::new(ErrorKind::PermissionDenied).into_inner_other(), None);
    assert_eq!(Error::new(ErrorKind::InvalidResponse).into_inner_other(), None);
    let io = Error::new(ErrorKind::IO(IoError::new(IoErrorKind::BrokenPipe, "pipe")));
    assert_eq!(io.into_inner_other(), None);
    assert_eq!(
        Error::new(ErrorKind::Other(String::from("why"))).into_inner_other(),
        Some(String::from("why"))
    );
}

#[test]
fn messages_read_as_sentences() {
    assert_eq!(Error::new(ErrorKind::FileExists).message(), "File already exists");
    assert_eq!(
        Error::new(ErrorKind::DirectoryMissing).message(),
        "Destination path provided is not a valid directory"
    );
    assert_eq!(
        Error::new(ErrorKind::PermissionDenied).message(),
        "Cannot create file: permission denied"
    );
    assert_eq!(
        Error::new(ErrorKind::InvalidResponse).message(),
        "Invalid response from the remote host"
    );
    assert_eq!(Error::new(ErrorKind::Other(String::from("why"))).message(), "why");
}

#[test]
fn message_of_an_io_failure_is_its_own() {
    let source = IoError::new(IoErrorKind::UnexpectedEof, "body ended early");
    let expected = source.to_string();
    assert_eq!(Error::from(source).message(), expected);
    assert_eq!(expected, "body ended early");
}

#[test]
fn errors_can_be_shown_for_debugging() {
    let text = format!("{:?}", Error::new(ErrorKind::FileExists));
    assert!(text.contains("FileExists"));
}
