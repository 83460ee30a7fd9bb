use rustpostal::error::{NulError, RuntimeError, SetupError};
use rustpostal::ffi::c_string;

#[test]
fn setup_error_text() {
    assert_eq!(SetupError.to_string(), "setup of libpostal resources failed");
    assert_eq!(
        RuntimeError::FailedSetup(SetupError).to_string(),
        "setup of libpostal resources failed"
    );
}

#[test]
fn invalid_address_text() {
    let e = NulError::find("a\0").unwrap();
    assert_eq!(
        RuntimeError::InvalidAddress(e).to_string(),
        "input address possibly contains internal null byte"
    );
}

#[test]
fn runtime_error_from_its_causes() {
    assert_eq!(
        RuntimeError::from(SetupError),
        RuntimeError::FailedSetup(SetupError)
    );
    let e = NulError::find("\0").unwrap();
    assert_eq!(
        RuntimeError::from(e.clone()),
        RuntimeError::InvalidAddress(e)
    );
    let converted: RuntimeError = SetupError.into();
    assert_eq!(converted, RuntimeError::FailedSetup(SetupError));
}

#[test]
fn first_zero_byte_is_found() {
    assert_eq!(NulError::find(""), None);
    assert_eq!(NulError::find("no zero here"), None);
    assert_eq!(NulError::find("España"), None);
    let e = NulError::find("ab\0cd\0").unwrap();
    assert_eq!(e.nul_position(), 2);
    assert_eq!(e.clone().into_vec(), vec![b'a', b'b', 0, b'c', b'd', 0]);
    assert_eq!(e.clone(), e);
}

#[test]
fn position_counts_bytes() {
    let e = NulError::find("ñ\0").unwrap();
    assert_eq!(e.nul_position(), 2);
    assert_eq!(e.into_vec(), vec![0xc3, 0xb1, 0]);
}

#[test]
fn text_without_zero_byte_is_copied() {
    assert_eq!(c_string("Rope Walk"), Ok("Rope Walk".to_string()));
    assert_eq!(c_string(""), Ok(String::new()));
    assert_eq!(c_string("a\0").unwrap_err().nul_position(), 1);
}
