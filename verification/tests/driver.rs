use bytes::Bytes;
use lore::driver::{
    backend_kind_from_value, check_whole_file_len, BackendKind, DriverInner, ErrorKind, IoDriver,
    PsyncDriver, WholeFileRead, WHOLE_FILE_LIMIT,
};

#[test]
fn a_recognised_backend_value_selects_it() {
    assert_eq!(
        backend_kind_from_value("psync").unwrap(),
        BackendKind::Psync
    );
    assert_eq!(
        backend_kind_from_value("PSYNC").unwrap(),
        BackendKind::Psync
    );
    assert_eq!(backend_kind_from_value("auto").unwrap(), BackendKind::Auto);
    assert_eq!(backend_kind_from_value("").unwrap(), BackendKind::Auto);
}

/// The value names the accepted set, because the caller reaching for this variable is
/// diagnosing something and a bare rejection tells them nothing.
#[test]
fn an_unrecognised_backend_value_is_a_reportable_error() {
    let error = backend_kind_from_value("uring")
        .expect_err("a backend that does not exist yet must not be accepted");

    assert_eq!(error.kind(), ErrorKind::InvalidInput);
    let message = error.message().to_string();
    assert!(message.contains("uring"), "{message}");
    assert!(message.contains("supported: auto, psync"), "{message}");
}

/// Whatever the environment holds, the process-wide driver resolves rather than panicking.
#[test]
fn the_global_driver_always_resolves() {
    assert_eq!(IoDriver::global(None).0.backend_name(), "psync");
    assert_eq!(IoDriver::global(Some("")).0.backend_name(), "psync");
    assert_eq!(IoDriver::global(Some("psync")).0.backend_name(), "psync");
    assert_eq!(IoDriver::global(Some("uring")).0.backend_name(), "psync");
}

#[test]
fn the_global_driver_reports_what_it_could_not_honor() {
    assert!(IoDriver::global(None).1.is_none());
    assert!(IoDriver::global(Some("AUTO")).1.is_none());
    let error = IoDriver::global(Some("Uring")).1.expect("an unknown backend is reported");
    assert_eq!(
        error.message(),
        "unsupported LORE_IO_BACKEND \"uring\" (supported: auto, psync)"
    );
}

#[test]
fn a_driver_from_the_environment_refuses_an_unknown_backend() {
    let error = IoDriver::from_env(Some("uring")).err().expect("the backend is unknown");
    assert_eq!(error.kind(), ErrorKind::InvalidInput);
    assert_eq!(
        error.message(),
        "unsupported LORE_IO_BACKEND \"uring\" (supported: auto, psync)"
    );
    assert_eq!(IoDriver::from_env(None).unwrap().backend_name(), "psync");
    assert_eq!(IoDriver::from_env(Some("Auto")).unwrap().backend_name(), "psync");
}

#[test]
fn a_value_that_is_not_text_is_an_unknown_backend() {
    for bytes in [&b"\xff"[..], &b"psync\xff"[..], &b"au\xc3to"[..]] {
        let value = String::from_utf8_lossy(bytes);
        let error = IoDriver::from_env(Some(&value)).err().expect("the value is not text");
        assert_eq!(error.kind(), ErrorKind::InvalidInput);
        assert!(error.message().contains("supported: auto, psync"));
        let (driver, error) = IoDriver::global(Some(&value));
        assert_eq!(driver.backend_name(), "psync");
        assert!(error.is_some());
    }
    assert_eq!(
        IoDriver::from_env(Some("psync\u{FFFD}")).err().unwrap().message(),
        "unsupported LORE_IO_BACKEND \"psync\u{FFFD}\" (supported: auto, psync)"
    );
}

#[test]
fn lowering_a_value_is_ascii_only() {
    // The Kelvin sign lowers to `k` in Unicode and to itself in ASCII.
    let error = backend_kind_from_value("\u{212a}Z").unwrap_err();
    assert_eq!(
        error.message(),
        "unsupported LORE_IO_BACKEND \"\u{212a}z\" (supported: auto, psync)"
    );
}

#[test]
fn every_kind_resolves_to_the_portable_backend() {
    let inner = DriverInner::Psync(PsyncDriver);
    for kind in [BackendKind::Auto, BackendKind::Psync] {
        let driver = IoDriver::new(kind).unwrap();
        assert_eq!(driver.backend(), inner);
        assert_eq!(driver.clone().backend(), inner);
        assert_eq!(driver.clone().backend_name(), "psync");
    }
}

#[test]
fn a_length_up_to_the_limit_is_accepted() {
    assert_eq!(WHOLE_FILE_LIMIT, 8_388_608);
    assert!(check_whole_file_len(0).is_ok());
    assert!(check_whole_file_len(WHOLE_FILE_LIMIT).is_ok());
    let error = check_whole_file_len(WHOLE_FILE_LIMIT + 1).unwrap_err();
    assert_eq!(error.kind(), ErrorKind::InvalidInput);
    assert_eq!(
        error.message(),
        "8388609 bytes exceeds the 8388608 byte whole-file limit; \
         open the file and use read_exact_at or write_all_at"
    );
}

#[test]
fn a_whole_file_read_is_bounded_by_the_length_of_the_file() {
    let driver = IoDriver::new(BackendKind::Psync).unwrap();
    assert_eq!(
        driver.read_file_bytes(4096).unwrap(),
        WholeFileRead { backend: DriverInner::Psync(PsyncDriver), len: 4096 }
    );
    assert_eq!(driver.read_file_bytes(8_388_608).unwrap().len, 8_388_608);
    let error = driver.read_file_bytes(u64::MAX).unwrap_err();
    assert_eq!(
        error.message(),
        "18446744073709551615 bytes exceeds the 8388608 byte whole-file limit; \
         open the file and use read_exact_at or write_all_at"
    );
}

#[test]
fn a_whole_file_write_is_bounded_by_the_length_of_its_data() {
    let driver = IoDriver::new(BackendKind::Psync).unwrap();
    let write = driver.write_file_bytes(Bytes::from_static(b"data"), true).ok().unwrap();
    assert_eq!(write.backend, DriverInner::Psync(PsyncDriver));
    assert_eq!(&write.data[..], b"data");
    assert!(write.durable);

    let full = driver.write_file_bytes(Bytes::from(vec![7; WHOLE_FILE_LIMIT]), false).ok().unwrap();
    assert_eq!(full.data.len(), WHOLE_FILE_LIMIT);
    assert!(!full.durable);

    let over = driver.write_file_bytes(Bytes::from(vec![7; WHOLE_FILE_LIMIT + 1]), false);
    let error = over.err().expect("the data is over the limit");
    assert_eq!(error.kind(), ErrorKind::InvalidInput);
    assert!(error.message().starts_with("8388609 bytes exceeds the 8388608 byte"));
}
