use sysworxx_io::error::Error;
use sysworxx_io::hw_rev::{decode_compatibles, decode_hw_revision};

#[test]
fn decode_test() {
    let rev = decode_hw_revision("systec,ctr700,rev0".to_string());
    assert_eq!(rev, Ok(0));

    let rev = decode_hw_revision("systec,ctr700,rev1\0systec,ctr700".to_string());
    assert_eq!(rev, Ok(1));

    let rev = decode_hw_revision("systec,ctr7002\0systec,ctr700".to_string());
    assert_eq!(rev, Err(Error::GenericError));
}

#[test]
fn decode_two_digit_revision() {
    assert_eq!(decode_hw_revision("systec,ctr750,rev12".to_string()), Ok(12));
}

#[test]
fn decode_last_rev_marker_wins() {
    assert_eq!(decode_hw_revision("a,rev3,rev4".to_string()), Ok(4));
}

#[test]
fn decode_trailing_marker_is_dropped() {
    // The empty text after a final ",rev" is skipped; what precedes it is not a number.
    assert_eq!(
        decode_hw_revision("systec,ctr700,rev".to_string()),
        Err(Error::GenericError)
    );
    assert_eq!(decode_hw_revision("7,rev".to_string()), Ok(7));
}

#[test]
fn decode_rejects_out_of_range_and_empty() {
    assert_eq!(
        decode_hw_revision("systec,rev256".to_string()),
        Err(Error::GenericError)
    );
    assert_eq!(decode_hw_revision("systec,rev255".to_string()), Ok(255));
    assert_eq!(decode_hw_revision("".to_string()), Err(Error::GenericError));
    assert_eq!(decode_hw_revision("\0,rev1".to_string()), Err(Error::GenericError));
    assert_eq!(decode_hw_revision("x,rev+5".to_string()), Ok(5));
    assert_eq!(decode_hw_revision("x,rev-5".to_string()), Err(Error::GenericError));
}

#[test]
fn device_name_is_first_matching_piece() {
    assert_eq!(
        decode_compatibles("systec,ctr700,rev1\0systec,ctr700", "ctr"),
        Some("ctr700".to_string())
    );
    assert_eq!(
        decode_compatibles("raspberrypi,4-model-b\0brcm,bcm2711", "pi"),
        Some("raspberrypi".to_string())
    );
    assert_eq!(decode_compatibles("systec,ctr700", "pi"), None);
    // only the first entry counts
    assert_eq!(decode_compatibles("systec,foo\0systec,ctr700", "ctr"), None);
    assert_eq!(decode_compatibles("", "ctr"), None);
}
