use sourmash_ffi::error::{Error, ErrorCode, ErrorKind};

fn all_kinds() -> Vec<ErrorKind> {
    vec![
        ErrorKind::Panic(String::from("p")),
        ErrorKind::Msg(String::from("m")),
        ErrorKind::Internal(String::from("i")),
        ErrorKind::MismatchKSizes(String::from("k")),
        ErrorKind::MismatchDNAProt(String::from("d")),
        ErrorKind::MismatchMaxHash(String::from("h")),
        ErrorKind::MismatchSeed(String::from("s")),
        ErrorKind::InvalidDNA(String::from("x")),
        ErrorKind::InvalidProt(String::from("y")),
        ErrorKind::Io(String::from("io")),
        ErrorKind::Utf8Error(String::from("u")),
        ErrorKind::ParseInt(String::from("n")),
        ErrorKind::Other(String::from("o")),
    ]
}

#[test]
fn no_error_is_zero() {
    assert_eq!(ErrorCode::NoError.value(), 0);
}

#[test]
fn each_kind_has_its_code() {
    let expected: Vec<(ErrorCode, u32)> = vec![
        (ErrorCode::Panic, 1),
        (ErrorCode::Msg, 3),
        (ErrorCode::Internal, 2),
        (ErrorCode::MismatchKSizes, 1_001),
        (ErrorCode::MismatchDNAProt, 1_002),
        (ErrorCode::MismatchMaxHash, 1_003),
        (ErrorCode::MismatchSeed, 1_004),
        (ErrorCode::InvalidDNA, 1_101),
        (ErrorCode::InvalidProt, 1_102),
        (ErrorCode::Io, 100_001),
        (ErrorCode::Utf8Error, 100_002),
        (ErrorCode::ParseInt, 100_003),
        (ErrorCode::Unknown, 4),
    ];
    for (kind, (code, value)) in all_kinds().iter().zip(expected.iter()) {
        let c = ErrorCode::from_kind(kind);
        assert_eq!(c, *code);
        assert_eq!(c.value(), *value);
    }
}

#[test]
fn every_kind_has_a_nonzero_code() {
    for kind in all_kinds().iter() {
        assert_ne!(ErrorCode::from_kind(kind).value(), 0);
        assert_ne!(ErrorCode::from_kind(kind), ErrorCode::NoError);
    }
}

#[test]
fn mapping_is_deterministic() {
    for kind in all_kinds().iter() {
        let first = ErrorCode::from_kind(kind);
        let second = ErrorCode::from_kind(kind);
        assert_eq!(first, second);
    }
    let a = ErrorKind::Io(String::from("disk full"));
    let b = ErrorKind::Io(String::from("permission denied"));
    assert_eq!(ErrorCode::from_kind(&a), ErrorCode::from_kind(&b));
}

#[test]
fn error_keeps_its_kind() {
    let e = Error::new(ErrorKind::InvalidDNA(String::from("Z")));
    assert!(matches!(e.kind(), ErrorKind::InvalidDNA(m) if m == "Z"));
}
