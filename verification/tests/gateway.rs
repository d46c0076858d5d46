//! End-to-end tests of the dispatch pipeline on plain values.

use teleapi::auth::check_auth;
use teleapi::config::{Command, Config};
use teleapi::dispatch::{parse_method, plan_request, plan_status, select_action, Method, RequestPlan};
use teleapi::router::find_command;

fn b(s: &str) -> Vec<u8> {
    s.as_bytes().to_vec()
}

fn cmd(endpoint: &str) -> Command {
    Command {
        endpoint: b(endpoint),
        shell: None,
        read_file: None,
        read_bin_file: None,
        write_file: None,
        user: None,
        group: None,
        mode: None,
    }
}

fn conf(commands: Vec<Command>) -> Config {
    Config { listen: b("127.0.0.1"), listen_port: 8080, apikey: b("secret"), commands }
}

#[test]
fn authorization_header_must_match_exactly() {
    let key = b("secret");
    assert!(check_auth(&vec![(b("Authorization"), b("secret"))], &key));
    assert!(!check_auth(&vec![(b("Authorization"), b("Secret"))], &key));
    assert!(!check_auth(&vec![(b("Authorization"), b("secret "))], &key));
    assert!(!check_auth(&vec![(b("authorization"), b("secret"))], &key));
    assert!(!check_auth(&vec![(b("Host"), b("secret"))], &key));
    assert!(!check_auth(&vec![], &key));
}

#[test]
fn later_matching_header_authorizes() {
    let key = b("secret");
    let headers = vec![(b("Host"), b("x")), (b("Authorization"), b("secret"))];
    assert!(check_auth(&headers, &key));
}

#[test]
fn unauthorized_request_is_401_and_nothing_runs() {
    let mut c = cmd("/run");
    c.shell = Some(b("echo hi"));
    let config = conf(vec![c]);
    let plan = plan_request(
        &config,
        &b("GET"),
        &b("/run"),
        &vec![(b("Authorization"), b("wrong"))],
        &b(""),
    );
    assert!(matches!(plan, RequestPlan::Unauthorized));
    assert_eq!(plan_status(&plan), Some(401));
    let plan = plan_request(&config, &b("GET"), &b("/run"), &vec![], &b(""));
    assert!(matches!(plan, RequestPlan::Unauthorized));
}

#[test]
fn unknown_path_is_404() {
    let mut c = cmd("/run");
    c.shell = Some(b("echo hi"));
    let config = conf(vec![c]);
    let auth = vec![(b("Authorization"), b("secret"))];
    let plan = plan_request(&config, &b("GET"), &b("/other"), &auth, &b(""));
    assert!(matches!(plan, RequestPlan::NotFound));
    assert_eq!(plan_status(&plan), Some(404));
}

#[test]
fn first_occurrence_of_duplicate_endpoint_wins() {
    let mut first = cmd("/dup");
    first.shell = Some(b("echo first"));
    let mut second = cmd("/dup");
    second.shell = Some(b("echo second"));
    let config = conf(vec![first, second]);
    let auth = vec![(b("Authorization"), b("secret"))];
    let plan = plan_request(&config, &b("GET"), &b("/dup"), &auth, &b(""));
    match plan {
        RequestPlan::Shell { command } => assert_eq!(command, b("echo first")),
        _ => panic!("expected a shell plan"),
    }
}

#[test]
fn find_command_returns_first_match_in_list_order() {
    let commands = vec![cmd("/a"), cmd("/b"), cmd("/b")];
    assert_eq!(find_command(&commands, &b("/a")), Some(0));
    assert_eq!(find_command(&commands, &b("/b")), Some(1));
    assert_eq!(find_command(&commands, &b("/c")), None);
}

#[test]
fn method_strings_parse_case_sensitively() {
    assert_eq!(parse_method(&b("GET")), Method::Get);
    assert_eq!(parse_method(&b("POST")), Method::Post);
    assert_eq!(parse_method(&b("PUT")), Method::Put);
    assert_eq!(parse_method(&b("DELETE")), Method::Delete);
    assert_eq!(parse_method(&b("PATCH")), Method::Other);
    assert_eq!(parse_method(&b("get")), Method::Other);
}

#[test]
fn get_serves_binary_file_over_text_and_shell() {
    let mut c = cmd("/data");
    c.read_bin_file = Some(b("/srv/data.bin"));
    c.read_file = Some(b("/srv/data.txt"));
    c.shell = Some(b("echo data"));
    let plan = select_action(Method::Get, &c, &b(""));
    match plan {
        RequestPlan::ReadBinFile { path } => assert_eq!(path, b("/srv/data.bin")),
        _ => panic!("expected the binary file plan"),
    }
}

#[test]
fn get_serves_text_file_over_shell() {
    let mut c = cmd("/data");
    c.read_file = Some(b("/srv/data.txt"));
    c.shell = Some(b("echo data"));
    let plan = select_action(Method::Get, &c, &b(""));
    assert!(matches!(plan, RequestPlan::ReadFile { .. }));
}

#[test]
fn get_falls_back_to_shell() {
    let mut c = cmd("/run");
    c.shell = Some(b("echo hi"));
    let plan = select_action(Method::Get, &c, &b(""));
    match plan {
        RequestPlan::Shell { command } => assert_eq!(command, b("echo hi")),
        _ => panic!("expected a shell plan"),
    }
}

#[test]
fn get_with_no_action_is_unsupported() {
    let c = cmd("/idle");
    let plan = select_action(Method::Get, &c, &b(""));
    assert!(matches!(plan, RequestPlan::Unsupported));
    assert_eq!(plan_status(&plan), Some(500));
}

#[test]
fn post_prefers_write_file_and_ignores_shell() {
    let mut c = cmd("/up");
    c.write_file = Some(b("/tmp/{name}"));
    c.shell = Some(b("echo ignored"));
    c.mode = Some(0o640);
    let plan = select_action(Method::Post, &c, &b("name=out"));
    match plan {
        RequestPlan::WriteFile { write } => {
            assert_eq!(write.path, b("/tmp/out"));
            assert_eq!(write.mode, Some(0o640));
            assert_eq!(write.user, None);
            assert_eq!(write.group, None);
        },
        _ => panic!("expected a write plan"),
    }
}

#[test]
fn put_runs_shell_when_no_write_file() {
    let mut c = cmd("/run");
    c.shell = Some(b("touch {f}"));
    let plan = select_action(Method::Put, &c, &b("f=x"));
    match plan {
        RequestPlan::Shell { command } => assert_eq!(command, b("touch x")),
        _ => panic!("expected a shell plan"),
    }
}

#[test]
fn post_with_no_action_is_unsupported() {
    let mut c = cmd("/idle");
    c.read_file = Some(b("/srv/readme"));
    let plan = select_action(Method::Post, &c, &b(""));
    assert!(matches!(plan, RequestPlan::Unsupported));
}

#[test]
fn delete_is_always_unsupported() {
    let mut c = cmd("/all");
    c.shell = Some(b("echo hi"));
    c.read_file = Some(b("/srv/a"));
    c.read_bin_file = Some(b("/srv/b"));
    c.write_file = Some(b("/srv/c"));
    let plan = select_action(Method::Delete, &c, &b(""));
    assert!(matches!(plan, RequestPlan::Unsupported));
    assert_eq!(plan_status(&plan), Some(500));
    let config = conf(vec![c]);
    let auth = vec![(b("Authorization"), b("secret"))];
    let plan = plan_request(&config, &b("DELETE"), &b("/all"), &auth, &b(""));
    assert!(matches!(plan, RequestPlan::Unsupported));
}

#[test]
fn unknown_method_is_unsupported() {
    let mut c = cmd("/run");
    c.shell = Some(b("echo hi"));
    let config = conf(vec![c]);
    let auth = vec![(b("Authorization"), b("secret"))];
    let plan = plan_request(&config, &b("PATCH"), &b("/run"), &auth, &b(""));
    assert!(matches!(plan, RequestPlan::Unsupported));
}
