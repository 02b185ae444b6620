use scupper::config::ServerConfig;
use scupper::paths::base_name;
use scupper::response::plan_response;
use scupper::response::DownloadResponse;
use scupper::response::OpenOutcome;

fn download_headers(resp: DownloadResponse) -> (String, String) {
    match resp {
        DownloadResponse::Found { headers } => (headers.content_type, headers.content_disposition),
        DownloadResponse::NotFound { .. } => panic!("expected a download response"),
    }
}

fn not_found_message(resp: DownloadResponse) -> String {
    match resp {
        DownloadResponse::NotFound { message } => message,
        DownloadResponse::Found { .. } => panic!("expected a 404 response"),
    }
}

#[test]
fn base_name_of_absolute_path() {
    assert_eq!(base_name("/tmp/report.pdf"), "report.pdf");
}

#[test]
fn base_name_of_bare_name() {
    assert_eq!(base_name("report.pdf"), "report.pdf");
}

#[test]
fn base_name_of_nested_path() {
    assert_eq!(base_name("/var/data/archive/photo.jpg"), "photo.jpg");
}

#[test]
fn base_name_keeps_only_last_segment() {
    assert_eq!(base_name("a//b"), "b");
}

#[test]
fn base_name_of_trailing_slash_is_empty() {
    assert_eq!(base_name("/tmp/dir/"), "");
    assert_eq!(base_name("/"), "");
    assert_eq!(base_name(""), "");
}

#[test]
fn base_name_of_non_ascii_path() {
    assert_eq!(base_name("/tmp/résumé.pdf"), "résumé.pdf");
}

#[test]
fn opened_file_gets_download_headers() {
    let cfg = ServerConfig::new(String::from("/tmp/report.pdf"));
    let resp = plan_response(&cfg, "GET", "/anything", &OpenOutcome::Opened);
    assert_eq!(resp.status(), 200);
    let (content_type, disposition) = download_headers(resp);
    assert_eq!(content_type, "application/binary");
    assert_eq!(disposition, "attachment; filename=\"report.pdf\"");
}

#[test]
fn failed_open_gets_not_found() {
    let cfg = ServerConfig::new(String::from("/tmp/missing.txt"));
    let err = String::from("No such file or directory (os error 2)");
    let resp = plan_response(&cfg, "GET", "/", &OpenOutcome::Failed { error: err });
    assert_eq!(resp.status(), 404);
    let message = not_found_message(resp);
    assert_eq!(message, "File not found: No such file or directory (os error 2)");
    assert!(message.contains("not found"));
}

#[test]
fn method_and_path_are_ignored_on_success() {
    let cfg = ServerConfig::new(String::from("/tmp/report.pdf"));
    let first = plan_response(&cfg, "GET", "/", &OpenOutcome::Opened);
    let second = plan_response(&cfg, "POST", "/some/deep/path?q=1", &OpenOutcome::Opened);
    assert_eq!(first.status(), second.status());
    let (ct1, cd1) = download_headers(first);
    let (ct2, cd2) = download_headers(second);
    assert_eq!(ct1, ct2);
    assert_eq!(cd1, cd2);
}

#[test]
fn method_and_path_are_ignored_on_failure() {
    let cfg = ServerConfig::new(String::from("/tmp/missing.txt"));
    let err = || OpenOutcome::Failed { error: String::from("permission denied") };
    let first = plan_response(&cfg, "HEAD", "/x", &err());
    let second = plan_response(&cfg, "PUT", "/y", &err());
    assert_eq!(first.status(), 404);
    assert_eq!(second.status(), 404);
    assert_eq!(not_found_message(first), not_found_message(second));
}
