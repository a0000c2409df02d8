use compiler_llvm_builder::error::BuildError;
use compiler_llvm_builder::fetch::{
    Attempt, DownloadTask, FetchOutcome, FetchPolicy, TransferReport, UnpackOutcome,
};
use compiler_llvm_builder::utils::{
    download, download_policy, download_task, unpack_tar, DOWNLOAD_PARALLEL_REQUESTS,
    DOWNLOAD_RETRIES, DOWNLOAD_TIMEOUT_SECONDS,
};

fn attempt(url: &str, status: u16) -> Attempt {
    Attempt { url: url.to_string(), status }
}

fn completed(reports: Vec<TransferReport>) -> FetchOutcome {
    FetchOutcome::Completed { reports }
}

#[test]
fn download_of_a_missing_file_fails_with_url_and_status() {
    let url = "https://git.musl-libc.org/cgit/musl/snapshot/musl-0.0.0.tar.gz";
    let policy = download_policy();
    assert_eq!(policy.retries, 3);
    let attempts = (0..policy.retries).map(|_| attempt(url, 404)).collect();
    let result = download(&completed(vec![TransferReport::Summary { attempts }]));
    assert_eq!(result, Err(BuildError::FetchStatus { url: url.to_string(), status: 404 }));
    assert_eq!(
        result.unwrap_err().message(),
        "https://git.musl-libc.org/cgit/musl/snapshot/musl-0.0.0.tar.gz failed with HTTP code: 404"
    );
}

#[test]
fn download_policy_is_three_tries_one_at_a_time_within_five_minutes() {
    assert_eq!(
        download_policy(),
        FetchPolicy { retries: 3, parallel_requests: 1, timeout_seconds: 300 }
    );
    assert_eq!(DOWNLOAD_RETRIES, 3);
    assert_eq!(DOWNLOAD_PARALLEL_REQUESTS, 1);
    assert_eq!(DOWNLOAD_TIMEOUT_SECONDS, 300);
}

#[test]
fn download_succeeds_only_when_every_status_is_200() {
    assert_eq!(download(&completed(vec![])), Ok(()));
    assert_eq!(
        download(&completed(vec![TransferReport::Summary { attempts: vec![attempt("a", 200)] }])),
        Ok(())
    );
    assert_eq!(
        download(&completed(vec![
            TransferReport::Summary { attempts: vec![attempt("a", 200), attempt("a", 200)] },
            TransferReport::Summary { attempts: vec![] },
            TransferReport::Summary { attempts: vec![attempt("b", 200)] },
        ])),
        Ok(())
    );
}

#[test]
fn one_rejected_attempt_fails_the_whole_download() {
    for status in [0u16, 199, 201, 204, 301, 404, 500, 65535] {
        let outcome = completed(vec![
            TransferReport::Summary { attempts: vec![attempt("a", 200)] },
            TransferReport::Summary { attempts: vec![attempt("b", 200), attempt("c", status)] },
            TransferReport::Summary { attempts: vec![attempt("d", 200)] },
        ]);
        assert_eq!(
            download(&outcome),
            Err(BuildError::FetchStatus { url: "c".to_string(), status })
        );
    }
}

#[test]
fn download_reports_the_first_failure() {
    let outcome = completed(vec![
        TransferReport::Summary { attempts: vec![attempt("a", 200), attempt("b", 503), attempt("c", 404)] },
        TransferReport::Failed { reason: "timed out".to_string() },
    ]);
    assert_eq!(download(&outcome), Err(BuildError::FetchStatus { url: "b".to_string(), status: 503 }));
    let outcome = completed(vec![
        TransferReport::Failed { reason: "timed out".to_string() },
        TransferReport::Summary { attempts: vec![attempt("b", 503)] },
    ]);
    assert_eq!(download(&outcome), Err(BuildError::FetchTransfer { reason: "timed out".to_string() }));
}

#[test]
fn download_that_could_not_run_fails() {
    assert_eq!(
        download(&FetchOutcome::SetupFailed { reason: "Setup error: no folder".to_string() }),
        Err(BuildError::FetchTransfer { reason: "Setup error: no folder".to_string() })
    );
    assert_eq!(
        download(&FetchOutcome::TransferFailed { reason: "Download definition: x".to_string() }),
        Err(BuildError::FetchTransfer { reason: "Download definition: x".to_string() })
    );
}

#[test]
fn download_task_names_url_and_directory() {
    assert_eq!(
        download_task("https://example/file", "./target-llvm/"),
        DownloadTask {
            url: "https://example/file".to_string(),
            destination_directory: "./target-llvm/".to_string(),
        }
    );
}

#[test]
fn unpack_fails_on_an_unreadable_or_corrupt_archive() {
    assert_eq!(unpack_tar(UnpackOutcome::Extracted), Ok(()));
    assert_eq!(
        unpack_tar(UnpackOutcome::OpenFailed { reason: "No such file".to_string() }),
        Err(BuildError::Unpack { reason: "No such file".to_string() })
    );
    assert_eq!(
        unpack_tar(UnpackOutcome::ExtractFailed { reason: "unexpected end of file".to_string() }),
        Err(BuildError::Unpack { reason: "unexpected end of file".to_string() })
    );
}
