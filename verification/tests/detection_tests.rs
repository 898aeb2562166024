use auxiliary::frames::read_register_frame;
use auxiliary::registers::WHO_AM_I;
use auxiliary::{detect_gyroscope, identify_gryoscope, GyroVariant};
use embedded_hal::blocking::spi::Transfer;

// Mock SPI for testing
struct MockSpi {
    response: Vec<u8>,
    call_count: usize,
}

impl MockSpi {
    fn new(response: Vec<u8>) -> Self {
        Self { response, call_count: 0 }
    }
}

// Implement the Transfer trait for MockSpi
impl Transfer<u8> for MockSpi {
    type Error = ();

    fn transfer<'w>(&mut self, words: &'w mut [u8]) -> Result<&'w [u8], Self::Error> {
        // Simulate SPI response by filling buffer with predefined response
        for (i, byte) in self.response.iter().enumerate() {
            if i < words.len() {
                words[i] = *byte;
            }
        }
        self.call_count += 1;
        Ok(words)
    }
}

struct FailingSpi;

impl Transfer<u8> for FailingSpi {
    type Error = u8;

    fn transfer<'w>(&mut self, _words: &'w mut [u8]) -> Result<&'w [u8], Self::Error> {
        Err(7)
    }
}

/// The WHO_AM_I transaction: the frame the library builds, through the SPI.
fn who_am_i_transfer<S: Transfer<u8>>(spi: &mut S) -> Result<GyroVariant, S::Error> {
    let mut buffer = read_register_frame(WHO_AM_I);
    assert_eq!(buffer, vec![0x8F, 0x00]);
    let result = spi.transfer(&mut buffer);
    detect_gyroscope(result)
}

#[test]
/// Test the detection of I3G4250D gyroscope
fn test_detect_i3g4250d() {
    let mut spi = MockSpi::new(vec![0x00, 0xD3]); // Simulate WHO_AM_I response for I3G4250D
    let result = who_am_i_transfer(&mut spi);
    assert!(result.is_ok());
    assert_eq!(result.unwrap(), GyroVariant::I3g4250d);
    assert_eq!(spi.call_count, 1);
}

#[test]
/// Test the detection of L3GD20 gyroscope
fn test_detect_l3gd20() {
    let mut spi = MockSpi::new(vec![0x00, 0xD4]);
    let result = who_am_i_transfer(&mut spi);
    assert!(result.is_ok());
    assert_eq!(result.unwrap(), GyroVariant::L3gd20);
}

#[test]
/// Test the detection of L3GD20H gyroscope
fn test_detect_l3gd20h() {
    let mut spi = MockSpi::new(vec![0x00, 0xD7]);
    let result = who_am_i_transfer(&mut spi);
    assert!(result.is_ok());
    assert_eq!(result.unwrap(), GyroVariant::L3gd20h);
}

#[test]
/// Test the detection of an unknown gyroscope
fn test_detect_unknown_gyroscope() {
    let mut spi = MockSpi::new(vec![0x00, 0xFF]);
    let result = who_am_i_transfer(&mut spi);
    assert!(result.is_ok());
    assert_eq!(result.unwrap(), GyroVariant::Unknown(0xFF));
}

#[test]
fn detect_passes_the_transfer_error_on() {
    let mut spi = FailingSpi;
    assert_eq!(who_am_i_transfer(&mut spi), Err(7));
}

#[test]
fn from_who_am_i_gives_the_byte_back() {
    assert_eq!(GyroVariant::from_who_am_i(0xD3), GyroVariant::I3g4250d);
    assert_eq!(GyroVariant::from_who_am_i(0xD4), GyroVariant::L3gd20);
    assert_eq!(GyroVariant::from_who_am_i(0xD7), GyroVariant::L3gd20h);
    assert_eq!(GyroVariant::from_who_am_i(0x00), GyroVariant::Unknown(0x00));
}

#[test]
fn identify_names_the_known_devices() {
    let ok: Result<&[u8], ()> = Ok(&[0x8F, 0xD4]);
    assert_eq!(identify_gryoscope(ok), Ok("L3GD20"));
    let ok: Result<&[u8], ()> = Ok(&[0x8F, 0xD3]);
    assert_eq!(identify_gryoscope(ok), Ok("I3G4250D"));
    let ok: Result<&[u8], ()> = Ok(&[0x8F, 0xD7]);
    assert_eq!(identify_gryoscope(ok), Ok("L3GD20H"));
}

#[test]
fn identify_reports_unknown_devices_and_failed_transfers() {
    let ok: Result<&[u8], ()> = Ok(&[0x8F, 0x12]);
    assert_eq!(identify_gryoscope(ok), Err("Unknown gyroscope device"));
    let failed: Result<&[u8], ()> = Err(());
    assert_eq!(identify_gryoscope(failed), Err("Failed to read WHO_AM_I register"));
}
