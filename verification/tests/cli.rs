use std::io::{Error, ErrorKind};

use mydns::address::IpAddress;
use mydns::cli::{host_argument, nothing_found_notice, report, Report, UsageError};
use mydns::resolver::ResolutionError;

fn words(list: &[&str]) -> Vec<String> {
    list.iter().map(|word| word.to_string()).collect()
}

#[test]
fn one_argument_is_the_host() {
    let arguments = words(&["52-0-56-137.nip.io"]);
    assert_eq!(host_argument(&arguments), Ok("52-0-56-137.nip.io"));
}

#[test]
fn the_host_is_taken_as_written() {
    assert_eq!(host_argument(&words(&[""])), Ok(""));
    assert_eq!(host_argument(&words(&["--help"])), Ok("--help"));
    assert_eq!(host_argument(&words(&["a b"])), Ok("a b"));
}

#[test]
fn no_argument_is_a_usage_error() {
    assert_eq!(host_argument(&[]), Err(UsageError::MissingArgument));
}

#[test]
fn two_or_more_arguments_are_a_usage_error() {
    assert_eq!(
        host_argument(&words(&["127.0.0.1", "localhost"])),
        Err(UsageError::TooManyArguments)
    );
    assert_eq!(
        host_argument(&words(&["a", "b", "c", "d"])),
        Err(UsageError::TooManyArguments)
    );
}

#[test]
fn usage_errors_have_their_diagnostics() {
    assert_eq!(UsageError::MissingArgument.message(), "argument must be provided");
    assert_eq!(UsageError::TooManyArguments.message(), "Too many arguments!");
}

#[test]
fn addresses_are_reported_in_order() {
    let list = vec![
        IpAddress::V4([192, 0, 2, 2]),
        IpAddress::V4([192, 0, 2, 1]),
        IpAddress::V4([192, 0, 2, 2]),
    ];
    let outcome = report(Ok(list.clone()));
    assert!(outcome.succeeded());
    match outcome {
        Report::Addresses(reported) => assert_eq!(reported, list),
        other => panic!("unexpected report: {:?}", other),
    }
}

#[test]
fn empty_list_is_a_notice_and_a_success() {
    let outcome = report(Ok(Vec::new()));
    assert!(matches!(outcome, Report::NothingFound));
    assert!(outcome.succeeded());
    assert_eq!(nothing_found_notice(), "No IPs found!");
}

#[test]
fn failed_lookup_is_reported_as_failure() {
    let cause = Error::new(ErrorKind::NotFound, "no such host");
    let outcome = report(Err(ResolutionError { cause }));
    assert!(!outcome.succeeded());
    match outcome {
        Report::Failed(error) => {
            assert_eq!(error.cause.kind(), ErrorKind::NotFound);
            assert_eq!(error.cause.to_string(), "no such host");
        }
        other => panic!("unexpected report: {:?}", other),
    }
}
