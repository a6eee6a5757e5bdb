use header_set::flex_abi::{
    call, decode, encode_args, env_request, env_result, env_value, get_env, log_debug, log_error, log_info,
    log_request, log_warn, request, service_create, service_create_request, service_create_result,
    status_from_code, BridgeCall, Host, Outcome, Reply, Status,
};

struct FakeHost {
    status: u32,
    data: Option<Vec<u8>>,
    calls: Vec<(String, String)>,
}

impl FakeHost {
    fn new(status: u32, data: Option<Vec<u8>>) -> FakeHost {
        FakeHost { status, data, calls: vec![] }
    }
}

impl Host for FakeHost {
    fn invoke(&mut self, call: &BridgeCall) -> Reply {
        self.calls.push((call.name.clone(), call.args.clone()));
        Reply { status: self.status, data: self.data.clone() }
    }
}

fn strings(v: &[&str]) -> Vec<String> {
    v.iter().map(|s| String::from(*s)).collect()
}

#[test]
fn ok_with_null_result_is_empty() {
    assert!(matches!(decode(Reply { status: 0, data: None }), Outcome::Empty));
    let mut host = FakeHost::new(0, None);
    assert!(matches!(call(&mut host, "f", &strings(&["a"])), Outcome::Empty));
}

#[test]
fn ok_with_bytes_hands_them_over() {
    match decode(Reply { status: 0, data: Some(vec![1, 2, 3]) }) {
        Outcome::Bytes(b) => assert_eq!(b, vec![1, 2, 3]),
        _ => panic!("expected bytes"),
    }
}

#[test]
fn not_found_gives_absent_env() {
    let mut host = FakeHost::new(1, Some(b"ignored".to_vec()));
    assert_eq!(get_env(&mut host, String::from("USER")), None);
    assert_eq!(host.calls, vec![(String::from("flex_get_env"), String::from("USER"))]);
}

#[test]
fn internal_failure_is_fatal_without_bytes() {
    assert!(matches!(decode(Reply { status: 10, data: Some(vec![1]) }), Outcome::Fatal(10)));
    let mut host = FakeHost::new(10, Some(vec![1]));
    assert!(matches!(call(&mut host, "f", &[]), Outcome::Fatal(10)));
    assert!(matches!(decode(Reply { status: 3, data: None }), Outcome::Fatal(3)));
}

#[test]
fn get_env_decodes_text() {
    let mut host = FakeHost::new(0, Some(b"alice".to_vec()));
    assert_eq!(get_env(&mut host, String::from("USER")), Some(String::from("alice")));
    assert_eq!(env_value(Outcome::Bytes(vec![0xff])), None);
    assert_eq!(env_value(Outcome::Fatal(2)), None);
}

#[test]
fn service_create_reports_completion() {
    let mut host = FakeHost::new(1, None);
    assert!(service_create(&mut host, strings(&["test"])[0].clone(), String::from("default"), String::from("uri")));
    assert_eq!(host.calls[0].0, "flex_service_create");
    assert_eq!(host.calls[0].1, "test|default|uri");
    let mut host = FakeHost::new(4, None);
    assert!(!service_create(&mut host, String::from("a"), String::from("b"), String::from("c")));
}

#[test]
fn log_is_best_effort() {
    let mut host = FakeHost::new(10, None);
    log_info(&mut host, String::from("hello"));
    assert_eq!(host.calls, vec![(String::from("flex_log"), String::from("info|hello"))]);
}

#[test]
fn arguments_are_joined_without_escaping() {
    assert_eq!(encode_args(&[]), "");
    assert_eq!(encode_args(&strings(&["a"])), "a");
    assert_eq!(encode_args(&strings(&["a", "b", "c"])), "a|b|c");
    assert_eq!(encode_args(&strings(&["a|b", "c"])), encode_args(&strings(&["a", "b", "c"])));
    let c = request("n", &strings(&["x", ""]));
    assert_eq!(c.name, "n");
    assert_eq!(c.args, "x|");
}

#[test]
fn status_codes_are_read() {
    assert_eq!(status_from_code(0), Some(Status::Success));
    assert_eq!(status_from_code(1), Some(Status::NotFound));
    assert_eq!(status_from_code(2), Some(Status::BadArgument));
    assert_eq!(status_from_code(4), Some(Status::ParseFailure));
    assert_eq!(status_from_code(7), Some(Status::Empty));
    assert_eq!(status_from_code(8), Some(Status::CasMismatch));
    assert_eq!(status_from_code(10), Some(Status::InternalFailure));
    assert_eq!(status_from_code(3), None);
}

#[test]
fn requests_name_the_host_function() {
    let c = env_request(String::from("USER"));
    assert_eq!((c.name.as_str(), c.args.as_str()), ("flex_get_env", "USER"));
    let c = service_create_request(String::from("svc"), String::from("ns"), String::from("http://x"));
    assert_eq!((c.name.as_str(), c.args.as_str()), ("flex_service_create", "svc|ns|http://x"));
    let c = log_request("warn", String::from("m|n"));
    assert_eq!((c.name.as_str(), c.args.as_str()), ("flex_log", "warn|m|n"));
}

#[test]
fn replies_are_read() {
    assert_eq!(env_result(Reply { status: 0, data: Some(b"v".to_vec()) }), Some(String::from("v")));
    assert_eq!(env_result(Reply { status: 0, data: Some(vec![0xc3]) }), None);
    assert_eq!(env_result(Reply { status: 0, data: None }), None);
    assert_eq!(env_result(Reply { status: 1, data: Some(b"v".to_vec()) }), None);
    assert!(service_create_result(Reply { status: 0, data: None }));
    assert!(service_create_result(Reply { status: 1, data: None }));
    assert!(!service_create_result(Reply { status: 8, data: None }));
    assert!(!service_create_result(Reply { status: 99, data: None }));
}

#[test]
fn each_log_level_is_sent() {
    let mut host = FakeHost::new(0, None);
    log_debug(&mut host, String::from("a"));
    log_warn(&mut host, String::from("b"));
    log_error(&mut host, String::from("c"));
    let args: Vec<&str> = host.calls.iter().map(|c| c.1.as_str()).collect();
    assert_eq!(args, vec!["debug|a", "warn|b", "error|c"]);
    assert!(host.calls.iter().all(|c| c.0 == "flex_log"));
}
