use jenkins_client::digits::u16_to_dec;
use jenkins_client::model::{Error, Jenkins, QueueItemExecutable, QueueItemRes};
use jenkins_client::resolve::{
    poll_step, poll_url, resolve_events, BoundedResolver, PollEvent, PollStep, ReplayOutcome,
    ResolveOutcome, Resolver, ResolverAction, POLL_INTERVAL_SECS,
};
use jenkins_client::trigger::{trigger_step, trigger_url, TriggerEvent};
use jenkins_client::{is_client_error_status, is_success_status};

fn waiting() -> PollEvent {
    PollEvent::Response {
        status: 200,
        body: Ok(QueueItemRes { why: Some("waiting".to_string()), executable: None }),
    }
}

fn assigned(number: i32, url: &str) -> PollEvent {
    PollEvent::Response {
        status: 200,
        body: Ok(QueueItemRes {
            why: None,
            executable: Some(QueueItemExecutable { number, url: url.to_string() }),
        }),
    }
}

#[test]
fn status_classification_edges() {
    assert!(!is_success_status(199));
    assert!(is_success_status(200));
    assert!(is_success_status(299));
    assert!(!is_success_status(300));
    assert!(!is_client_error_status(399));
    assert!(is_client_error_status(400));
    assert!(is_client_error_status(404));
    assert!(is_client_error_status(499));
    assert!(!is_client_error_status(500));
}

#[test]
fn decimal_rendering() {
    assert_eq!(u16_to_dec(0), "0");
    assert_eq!(u16_to_dec(7), "7");
    assert_eq!(u16_to_dec(42), "42");
    assert_eq!(u16_to_dec(404), "404");
    assert_eq!(u16_to_dec(65535), "65535");
}

#[test]
fn jenkins_accessors() {
    let cli = Jenkins::new("https://jenkins.domain.com", "jenkins-user", "jenkins-token");
    assert_eq!(cli.get_url(), "https://jenkins.domain.com");
    assert_eq!(cli.get_user(), "jenkins-user");
    assert_eq!(cli.get_password(), "jenkins-token");
}

#[test]
fn trigger_url_shape() {
    assert_eq!(
        trigger_url("https://jenkins.domain.com", "ansible-global-adhoc"),
        "https://jenkins.domain.com/job/ansible-global-adhoc/buildWithParameters"
    );
}

#[test]
fn trigger_request_encodes_all_parameters() {
    let cli = Jenkins::new("https://jenkins.domain.com", "jenkins-user", "jenkins-token");
    let params = vec![
        ("HostLimit".to_string(), "xxx".to_string()),
        ("Module".to_string(), "ansible.builtin.ping".to_string()),
    ];
    let req = cli.trigger_request("ansible-global-adhoc", &params);
    assert_eq!(req.url, "https://jenkins.domain.com/job/ansible-global-adhoc/buildWithParameters");
    assert_eq!(req.body, "HostLimit=xxx&Module=ansible.builtin.ping");
}

#[test]
fn trigger_request_escapes_values() {
    let cli = Jenkins::new("https://ci.example", "u", "p");
    let params = vec![("Env".to_string(), "staging env&x=1".to_string())];
    let req = cli.trigger_request("smoke-test", &params);
    assert_eq!(req.body, "Env=staging+env%26x%3D1");
}

#[test]
fn trigger_request_empty_parameters() {
    let cli = Jenkins::new("https://ci.example", "u", "p");
    let req = cli.trigger_request("smoke-test", &vec![]);
    assert_eq!(req.body, "");
}

#[test]
fn trigger_accepts_location_unmodified() {
    let ev = TriggerEvent::Response {
        status: 201,
        location: Some("https://ci.example/queue/item/42/".to_string()),
    };
    let r = trigger_step(ev);
    assert_eq!(r.ok(), Some("https://ci.example/queue/item/42/".to_string()));
}

#[test]
fn trigger_missing_location_is_api_error() {
    let ev = TriggerEvent::Response { status: 200, location: None };
    match trigger_step(ev) {
        Err(Error::APIError(m)) => assert_eq!(m, "location header not available"),
        _ => panic!("expected an API error"),
    }
}

#[test]
fn trigger_bad_status_carries_the_status() {
    let ev = TriggerEvent::Response { status: 403, location: Some("ignored".to_string()) };
    match trigger_step(ev) {
        Err(Error::APIError(m)) => assert_eq!(m, "http status: 403"),
        _ => panic!("expected an API error"),
    }
    let ev = TriggerEvent::Response { status: 500, location: None };
    match trigger_step(ev) {
        Err(Error::APIError(m)) => assert_eq!(m, "http status: 500"),
        _ => panic!("expected an API error"),
    }
}

#[test]
fn trigger_transport_failure_is_network_error() {
    let ev = TriggerEvent::TransportError("connection refused".to_string());
    match trigger_step(ev) {
        Err(Error::NetworkError(m)) => assert_eq!(m, "connection refused"),
        _ => panic!("expected a network error"),
    }
}

#[test]
fn poll_url_shape() {
    assert_eq!(
        poll_url("https://ci.example/queue/item/42/"),
        "https://ci.example/queue/item/42/api/json"
    );
}

#[test]
fn poll_step_classifies_each_report() {
    match poll_step(&waiting()) {
        PollStep::KeepPolling => {}
        _ => panic!("a queued snapshot keeps polling"),
    }
    match poll_step(&assigned(7, "https://ci.example/job/j/7/")) {
        PollStep::Resolved(qi) => {
            let ex = qi.executable.expect("executable");
            assert_eq!(ex.number, 7);
            assert_eq!(ex.url, "https://ci.example/job/j/7/");
        }
        _ => panic!("an assigned snapshot resolves"),
    }
    match poll_step(&PollEvent::Response { status: 404, body: Err("no body".to_string()) }) {
        PollStep::Fail(Error::QueueItemNotExists) => {}
        _ => panic!("a client error is queue-item-not-exists"),
    }
    match poll_step(&PollEvent::Response { status: 200, body: Err("bad json".to_string()) }) {
        PollStep::Fail(Error::DecodeError(m)) => assert_eq!(m, "bad json"),
        _ => panic!("an undecodable body is a decode error"),
    }
    match poll_step(&PollEvent::TransportError("timed out".to_string())) {
        PollStep::Fail(Error::NetworkError(m)) => assert_eq!(m, "timed out"),
        _ => panic!("a transport failure is a network error"),
    }
}

#[test]
fn end_to_end_third_poll_resolves() {
    let cli = Jenkins::new("https://ci.example", "u", "p");
    let params = vec![("Env".to_string(), "staging".to_string())];
    let req = cli.trigger_request("smoke-test", &params);
    assert_eq!(req.url, "https://ci.example/job/smoke-test/buildWithParameters");
    assert_eq!(req.body, "Env=staging");

    let ev = TriggerEvent::Response {
        status: 201,
        location: Some("https://ci.example/queue/item/42/".to_string()),
    };
    let location = trigger_step(ev).expect("trigger succeeds");
    assert_eq!(poll_url(&location), "https://ci.example/queue/item/42/api/json");

    let events = vec![
        waiting(),
        waiting(),
        assigned(107, "https://ci.example/job/smoke-test/107/"),
    ];
    match resolve_events(&events) {
        ReplayOutcome::Resolved(qi) => {
            assert!(qi.why.is_none());
            let ex = qi.executable.expect("executable");
            assert_eq!(ex.number, 107);
            assert_eq!(ex.url, "https://ci.example/job/smoke-test/107/");
        }
        _ => panic!("expected the session to resolve"),
    }
}

#[test]
fn end_to_end_first_poll_not_found() {
    let events = vec![PollEvent::Response { status: 404, body: Err("ignored".to_string()) }];
    match resolve_events(&events) {
        ReplayOutcome::Failed(Error::QueueItemNotExists) => {}
        _ => panic!("expected queue-item-not-exists"),
    }
}

#[test]
fn resolution_takes_the_first_assigned_snapshot() {
    let events = vec![
        waiting(),
        assigned(9, "https://ci.example/job/j/9/"),
        assigned(10, "https://ci.example/job/j/10/"),
        PollEvent::Response { status: 404, body: Err("later".to_string()) },
    ];
    match resolve_events(&events) {
        ReplayOutcome::Resolved(qi) => {
            assert_eq!(qi.executable.expect("executable").number, 9);
        }
        _ => panic!("expected the session to resolve"),
    }
}

#[test]
fn exhausted_when_every_snapshot_is_queued() {
    let events = vec![waiting(), waiting(), waiting()];
    match resolve_events(&events) {
        ReplayOutcome::Exhausted => {}
        _ => panic!("expected exhaustion"),
    }
}

#[test]
fn transport_failure_while_polling_is_network_error() {
    let events = vec![waiting(), PollEvent::TransportError("reset".to_string())];
    match resolve_events(&events) {
        ReplayOutcome::Failed(Error::NetworkError(m)) => assert_eq!(m, "reset"),
        _ => panic!("expected a network error"),
    }
}

#[test]
fn resolver_sleeps_before_every_poll() {
    assert_eq!(POLL_INTERVAL_SECS, 3);
    let mut r = Resolver::start();
    assert_eq!(r.next_action(), ResolverAction::Sleep(3));
    r.on_slept();
    assert_eq!(r.next_action(), ResolverAction::Poll);
    r.on_poll_event(waiting());
    assert_eq!(r.next_action(), ResolverAction::Sleep(3));
    r.on_slept();
    assert_eq!(r.next_action(), ResolverAction::Poll);
    r.on_poll_event(assigned(107, "https://ci.example/job/smoke-test/107/"));
    assert_eq!(r.next_action(), ResolverAction::Stop);
    match r {
        Resolver::Finished(ResolveOutcome::Resolved(qi)) => {
            assert_eq!(qi.executable.expect("executable").number, 107);
        }
        _ => panic!("expected a finished, resolved session"),
    }
}

#[test]
fn resolver_finishes_on_client_error() {
    let mut r = Resolver::start();
    r.on_slept();
    r.on_poll_event(PollEvent::Response { status: 410, body: Err("gone".to_string()) });
    assert_eq!(r.next_action(), ResolverAction::Stop);
    match r {
        Resolver::Finished(ResolveOutcome::Failed(Error::QueueItemNotExists)) => {}
        _ => panic!("expected queue-item-not-exists"),
    }
}

#[test]
fn bounded_resolver_times_out_after_budget() {
    let mut r = BoundedResolver::start(2);
    assert_eq!(r.next_action(), ResolverAction::Sleep(3));
    r.on_slept();
    assert_eq!(r.next_action(), ResolverAction::Poll);
    r.on_poll_event(waiting());
    assert_eq!(r.next_action(), ResolverAction::Sleep(3));
    r.on_slept();
    r.on_poll_event(waiting());
    assert_eq!(r.next_action(), ResolverAction::Stop);
    match r.finish() {
        ResolveOutcome::Failed(Error::Timeout) => {}
        _ => panic!("expected a timeout"),
    }
}

#[test]
fn bounded_resolver_resolves_within_budget() {
    let mut r = BoundedResolver::start(1);
    r.on_slept();
    r.on_poll_event(assigned(5, "https://ci.example/job/j/5/"));
    assert_eq!(r.next_action(), ResolverAction::Stop);
    match r.finish() {
        ResolveOutcome::Resolved(qi) => {
            assert_eq!(qi.executable.expect("executable").number, 5);
        }
        _ => panic!("expected a resolution"),
    }
}

#[test]
fn bounded_resolver_with_no_budget_stops_at_once() {
    let r = BoundedResolver::start(0);
    assert_eq!(r.next_action(), ResolverAction::Stop);
    match r.finish() {
        ResolveOutcome::Failed(Error::Timeout) => {}
        _ => panic!("expected a timeout"),
    }
}

#[test]
fn error_descriptions() {
    assert_eq!(Error::APIError("x".to_string()).describe(), "API error: x");
    assert_eq!(
        Error::QueueItemNotExists.describe(),
        "Queue item not exists, maybe already running or finished"
    );
    assert_eq!(Error::NetworkError("y".to_string()).describe(), "Network error: y");
    assert_eq!(Error::DecodeError("z".to_string()).describe(), "Decode error: z");
    assert_eq!(Error::Timeout.describe(), "Timeout: no build number within the poll budget");
}
