use esp_idf_spi::sys::{esp, EspError};

#[test]
fn status_codes() {
    assert_eq!(esp(0), Ok(()));
    assert_eq!(esp(-1), Err(EspError { code: -1 }));
    assert_eq!(esp(0x103).unwrap_err().code(), 0x103);
}
