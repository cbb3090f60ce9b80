use thermo_alarm::error::BusError;

#[test]
fn every_error_has_its_console_text() {
    assert_eq!(BusError::NoPresence.describe(), "Bus not high");
    assert_eq!(BusError::PinFault.describe(), "Pin error");
    assert_eq!(BusError::UnexpectedResponse.describe(), "Unexpected response");
    assert_eq!(BusError::ChecksumMismatch.describe(), "CRC mismatch");
    assert_eq!(BusError::Timeout.describe(), "Timeout");
}
