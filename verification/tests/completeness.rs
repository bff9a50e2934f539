use wallhaven::completeness::{get_eof_marker, is_download_completed, marker_for, tail_start};
use wallhaven::error::ErrorKind;

const JPG: [u8; 2] = [0xFF, 0xD9];
const PNG: [u8; 8] = [0x49, 0x45, 0x4E, 0x44, 0xAE, 0x42, 0x60, 0x82];
const GIF: [u8; 1] = [0x3B];
const BMP: [u8; 2] = [0x42, 0x4D];
const TIFF: [u8; 4] = [0x00, 0x00, 0x00, 0x00];

#[test]
fn marker_table_holds_every_supported_type() {
    assert_eq!(get_eof_marker("jpg"), Some(JPG.to_vec()));
    assert_eq!(get_eof_marker("jpeg"), Some(JPG.to_vec()));
    assert_eq!(get_eof_marker("png"), Some(PNG.to_vec()));
    assert_eq!(get_eof_marker("gif"), Some(GIF.to_vec()));
    assert_eq!(get_eof_marker("bmp"), Some(BMP.to_vec()));
    assert_eq!(get_eof_marker("tiff"), Some(TIFF.to_vec()));
    assert_eq!(get_eof_marker("tif"), Some(TIFF.to_vec()));
}

#[test]
fn marker_table_knows_no_other_type() {
    assert_eq!(get_eof_marker("webp"), None);
    assert_eq!(get_eof_marker(""), None);
    assert_eq!(get_eof_marker("JPG"), None);
    assert_eq!(get_eof_marker("jpg "), None);
    assert_eq!(get_eof_marker(".jpg"), None);
}

#[test]
fn marker_for_goes_by_the_extension_of_the_name() {
    assert_eq!(marker_for("wallhaven-ab12cd.png"), Some(PNG.to_vec()));
    assert_eq!(marker_for("archive.png.jpg"), Some(JPG.to_vec()));
    assert_eq!(marker_for("png"), None);
    assert_eq!(marker_for(".png"), None);
    assert_eq!(marker_for("notes.txt"), None);
}

#[test]
fn complete_exactly_when_the_tail_is_the_marker() {
    let table: [(&str, &[u8]); 7] = [
        ("a.jpg", &JPG),
        ("a.jpeg", &JPG),
        ("a.png", &PNG),
        ("a.gif", &GIF),
        ("a.bmp", &BMP),
        ("a.tiff", &TIFF),
        ("a.tif", &TIFF),
    ];
    for (name, marker) in table {
        assert!(is_download_completed(name, marker), "{}", name);
        let mut wrong = marker.to_vec();
        wrong[0] ^= 0x01;
        assert!(!is_download_completed(name, &wrong), "{}", name);
        let mut longer = vec![0x00];
        longer.extend_from_slice(marker);
        assert!(!is_download_completed(name, &longer), "{}", name);
        assert!(!is_download_completed(name, &marker[1..]), "{}", name);
        assert!(!is_download_completed(name, &[]), "{}", name);
    }
}

#[test]
fn unrecognized_type_is_never_complete() {
    assert!(!is_download_completed("a.webp", &JPG));
    assert!(!is_download_completed("a.webp", &[]));
    assert!(!is_download_completed("a.JPG", &JPG));
    assert!(!is_download_completed("jpg", &JPG));
    assert!(!is_download_completed(".jpg", &JPG));
    assert!(!is_download_completed("", &[]));
}

#[test]
fn marker_of_another_type_does_not_count() {
    assert!(!is_download_completed("a.png", &JPG));
    assert!(!is_download_completed("a.jpg", &BMP));
    assert!(!is_download_completed("a.gif", &JPG));
}

#[test]
fn tail_starts_marker_length_before_the_end() {
    assert_eq!(tail_start(10, 2).unwrap(), 8);
    assert_eq!(tail_start(8, 8).unwrap(), 0);
    assert_eq!(tail_start(0, 0).unwrap(), 0);
    assert_eq!(tail_start(u64::MAX, 4).unwrap(), u64::MAX - 4);
}

#[test]
fn file_shorter_than_its_marker_is_an_io_failure() {
    let error = tail_start(1, 2).unwrap_err();
    assert_eq!(error.kind, ErrorKind::Io);
    assert_eq!(error.message, "file is shorter than its end marker");
    assert_eq!(error.describe(), "i/o error: file is shorter than its end marker");
    assert!(tail_start(0, 1).is_err());
    assert!(tail_start(7, 8).is_err());
}
