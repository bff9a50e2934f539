use wallhaven::download::{file_path, DownloadJob};
use wallhaven::error::{ErrorKind, SyncError};
use wallhaven::records::Wallpaper;

fn wallpaper(path: &str) -> Wallpaper {
    Wallpaper { id: "ab12cd".to_string(), path: path.to_string() }
}

#[test]
fn file_path_joins_directory_and_name_with_a_slash() {
    assert_eq!(file_path("walls", "photo.jpg"), "walls/photo.jpg");
    assert_eq!(file_path("./", "photo.jpg"), ".//photo.jpg");
    assert_eq!(file_path("", "photo.jpg"), "/photo.jpg");
    assert_eq!(file_path("walls", ""), "walls/");
}

#[test]
fn job_names_the_file_after_the_last_segment_of_the_address() {
    let job = DownloadJob::prepare(
        "/srv/walls",
        &wallpaper("https://w.wallhaven.cc/full/ab/wallhaven-ab12cd.jpg"),
    );
    assert_eq!(job.url, "https://w.wallhaven.cc/full/ab/wallhaven-ab12cd.jpg");
    assert_eq!(job.file_name, "wallhaven-ab12cd.jpg");
    assert_eq!(job.file_path, "/srv/walls/wallhaven-ab12cd.jpg");
}

#[test]
fn job_for_an_address_without_a_slash_takes_all_of_it() {
    let job = DownloadJob::prepare("walls", &wallpaper("photo.png"));
    assert_eq!(job.file_name, "photo.png");
    assert_eq!(job.file_path, "walls/photo.png");
}

#[test]
fn job_for_an_address_that_ends_in_a_slash_has_an_empty_name() {
    let job = DownloadJob::prepare("walls", &wallpaper("https://host/dir/"));
    assert_eq!(job.file_name, "");
    assert_eq!(job.file_path, "walls/");
    assert_eq!(job.tail_len(true), None);
    assert!(job.needs_fetch(true, &[]));
}

#[test]
fn tail_len_is_the_length_of_the_marker() {
    let lengths = [
        ("a.jpg", Some(2)),
        ("a.jpeg", Some(2)),
        ("a.png", Some(8)),
        ("a.gif", Some(1)),
        ("a.bmp", Some(2)),
        ("a.tiff", Some(4)),
        ("a.tif", Some(4)),
        ("a.webp", None),
        ("a", None),
    ];
    for (name, expected) in lengths {
        let job = DownloadJob::prepare("walls", &wallpaper(name));
        assert_eq!(job.tail_len(true), expected, "{}", name);
        assert_eq!(job.tail_len(false), None, "{}", name);
    }
}

#[test]
fn missing_file_is_fetched() {
    let job = DownloadJob::prepare("walls", &wallpaper("https://host/photo.jpg"));
    assert!(job.needs_fetch(false, &[]));
    assert!(job.needs_fetch(false, &[0xFF, 0xD9]));
}

#[test]
fn complete_file_is_not_fetched() {
    let job = DownloadJob::prepare("walls", &wallpaper("https://host/photo.jpg"));
    assert!(!job.needs_fetch(true, &[0xFF, 0xD9]));
}

#[test]
fn partial_file_is_fetched_again() {
    let job = DownloadJob::prepare("walls", &wallpaper("https://host/photo.jpg"));
    assert!(job.needs_fetch(true, &[0xFF, 0xD8]));
    assert!(job.needs_fetch(true, &[0xD9]));
    assert!(job.needs_fetch(true, &[]));
}

#[test]
fn file_of_unrecognized_type_is_always_fetched() {
    let job = DownloadJob::prepare("walls", &wallpaper("https://host/photo.webp"));
    assert!(job.needs_fetch(true, &[0xFF, 0xD9]));
    assert!(job.needs_fetch(true, &[]));
}

#[test]
fn failure_is_described_by_kind_and_message() {
    let network = SyncError { kind: ErrorKind::Network, message: "timed out".to_string() };
    let decode = SyncError { kind: ErrorKind::Decode, message: "missing field".to_string() };
    let io = SyncError { kind: ErrorKind::Io, message: "denied".to_string() };
    assert_eq!(network.describe(), "network error: timed out");
    assert_eq!(decode.describe(), "decode error: missing field");
    assert_eq!(io.describe(), "i/o error: denied");
}

#[test]
fn failure_copy_keeps_kind_and_message() {
    let io = SyncError { kind: ErrorKind::Io, message: "denied".to_string() };
    let copy = io.clone();
    assert_eq!(copy.kind, ErrorKind::Io);
    assert_eq!(copy.message, "denied");
}
