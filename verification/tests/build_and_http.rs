use open_net::build_config::{deployment_target, BuildConfigError, BuildErrorKind};
use open_net::clock::Duration;
use open_net::http_client::{print_error, unwrap_resp, HttpClient, HttpWrapper};
use open_net::HttpError;

fn refusal(arch: &str, requested: Option<&str>) -> String {
    match deployment_target(arch, requested) {
        Ok(target) => panic!("accepted {target}"),
        Err(error) => error.message(),
    }
}

#[test]
fn every_architecture_has_its_first_version() {
    assert_eq!(deployment_target("x86_64", None).unwrap(), "10.14");
    assert_eq!(deployment_target("aarch64", None).unwrap(), "11.0");
    assert_eq!(
        refusal("powerpc", Some("10.14")),
        "unsupported macOS architecture: powerpc"
    );
}

#[test]
fn newer_targets_are_kept_as_they_were_written() {
    for (arch, target) in [
        ("x86_64", "10.14"),
        ("x86_64", "10.14.0"),
        ("x86_64", "10.15.7"),
        ("x86_64", "11"),
        ("x86_64", "010.014"),
        ("aarch64", "11"),
        ("aarch64", "11.0.0"),
        ("aarch64", "4294967295.0"),
    ] {
        assert_eq!(deployment_target(arch, Some(target)).unwrap(), target);
    }
}

#[test]
fn older_targets_are_refused() {
    assert_eq!(
        refusal("x86_64", Some("10.13.6")),
        "MACOSX_DEPLOYMENT_TARGET 10.13.6 is below x86_64 minimum 10.14"
    );
    assert_eq!(
        refusal("aarch64", Some("10.15")),
        "MACOSX_DEPLOYMENT_TARGET 10.15 is below aarch64 minimum 11.0"
    );
    assert!(matches!(
        deployment_target("x86_64", Some("10")),
        Err(BuildConfigError::BelowMinimum { .. })
    ));
}

#[test]
fn what_is_no_version_is_refused() {
    for target in [
        "",
        ".",
        "11.",
        ".11",
        "11..0",
        "11.0.0.0",
        "11.0a",
        "+11",
        "11 ",
        "4294967296",
        "99999999999999999999",
        "١١.٠",
    ] {
        assert!(
            matches!(
                deployment_target("aarch64", Some(target)),
                Err(BuildConfigError::InvalidTarget { .. })
            ),
            "{target:?} was accepted"
        );
    }
    assert_eq!(
        refusal("x86_64", Some("a\"b\n")),
        "invalid MACOSX_DEPLOYMENT_TARGET: \"a\\\"b\\n\""
    );
}

#[test]
fn every_refusal_is_one_of_the_input() {
    for (arch, target) in [
        ("riscv64", None),
        ("aarch64", Some("eleven")),
        ("aarch64", Some("10.15")),
    ] {
        assert_eq!(
            deployment_target(arch, target).unwrap_err().kind(),
            BuildErrorKind::InvalidInput
        );
    }
}

#[test]
fn a_client_is_built_with_its_sizes() {
    let client = HttpClient::new();
    client.task();
    assert_eq!(client.fewf.task_capacity, 512);
    assert_eq!(client.fewf.callback_capacity, 128);
}

#[test]
fn values_with_control_characters_fail_the_request() {
    let wrapper = HttpWrapper {
        time_out: Duration::from_secs(1),
    };
    let header = |value: &str| vec![("x-test".to_string(), value.to_string())];
    assert_eq!(wrapper.post(&Vec::new()), Ok(()));
    assert_eq!(wrapper.post(&header("plain\ttext")), Ok(()));
    assert_eq!(wrapper.post(&header("tschüß")), Ok(()));
    assert_eq!(
        wrapper.post(&header("two\nlines")),
        Err(HttpError::RequestFailed)
    );
    assert_eq!(
        wrapper.post(&header("\u{7f}")),
        Err(HttpError::RequestFailed)
    );
}

#[test]
fn only_an_answer_with_success_is_passed_on() {
    assert_eq!(print_error(true), Err(HttpError::RequestTimeout));
    assert_eq!(print_error(false), Err(HttpError::RequestFailed));
    assert_eq!(
        unwrap_resp(200, Some("body".to_string())),
        Ok((200, "body".to_string()))
    );
    assert_eq!(unwrap_resp(200, None), Ok((200, "no response!".to_string())));
    assert_eq!(
        unwrap_resp(201, Some("body".to_string())),
        Err(HttpError::RequestFailed)
    );
    assert_eq!(unwrap_resp(500, None), Err(HttpError::RequestFailed));
}
