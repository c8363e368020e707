use rust_webhook_transformer::dispatch::{aggregate, dispatch, Aggregator, Config, Decision, RequestOutcome};
use rust_webhook_transformer::transformer::{
    GitlabToHookshotTransformer, GrafanaToHookshotTransformer, TransformerConfigTypes,
    UptimeKumaToHookshotTransformer,
};

fn config(continue_on_error: Option<bool>) -> Config {
    let mut c = Config::new(continue_on_error);
    c.add_endpoint(
        "ops".to_string(),
        vec![
            TransformerConfigTypes::GrafanaToHookshot(GrafanaToHookshotTransformer {
                uri: "http://a".to_string(),
                just_show_message: Some(true),
            }),
            TransformerConfigTypes::UptimeKumaToHookshot(UptimeKumaToHookshotTransformer {
                uri: "http://b".to_string(),
                just_show_message: Some(true),
            }),
        ],
    );
    c.add_endpoint(
        "git".to_string(),
        vec![TransformerConfigTypes::GitlabToHookshot(GitlabToHookshotTransformer { uri: "http://c".to_string() })],
    );
    c.add_endpoint("none".to_string(), vec![]);
    c
}

fn failed(o: &RequestOutcome) -> Option<String> {
    match o {
        RequestOutcome::Failed(e) => Some(e.clone()),
        _ => None,
    }
}

#[test]
fn dispatch_invokes_configured_transformers_in_order() {
    let c = config(None);
    let v = dispatch(&c, "ops", "POST", b"{\"message\":\"m\",\"msg\":\"k\"}").unwrap();
    assert_eq!(v.len(), 2);
    assert_eq!(v[0].uri, "http://a");
    assert_eq!(v[0].outcome.as_ref().unwrap().text, "m");
    assert_eq!(v[1].uri, "http://b");
    assert_eq!(v[1].outcome.as_ref().unwrap().text, "k");
    let g = dispatch(&c, "git", "POST", b"{\"object_kind\":\"issue\"}").unwrap();
    assert_eq!(g.len(), 1);
    assert_eq!(g[0].uri, "http://c");
    assert_eq!(g[0].outcome.as_ref().unwrap_err(), "Unsupported object_kind: issue");
}

#[test]
fn failures_stay_local_to_their_invocation() {
    let c = config(None);
    let v = dispatch(&c, "ops", "PUT", b"{\"message\":\"m\",\"msg\":\"k\"}").unwrap();
    assert_eq!(v[0].outcome.as_ref().unwrap().text, "m");
    assert_eq!(v[1].outcome.as_ref().unwrap_err(), "Only POST requests are supported");
}

#[test]
fn unknown_endpoint_runs_nothing() {
    let c = config(None);
    assert!(dispatch(&c, "missing", "POST", b"{}").is_none());
    assert!(dispatch(&c, "OPS", "POST", b"{}").is_none());
    assert_eq!(RequestOutcome::NotFound.status_code(), 404);
    assert_eq!(RequestOutcome::NotFound.response_body(), "Unknown endpoint id");
}

#[test]
fn empty_endpoint_succeeds_at_once() {
    let c = config(Some(false));
    let v = dispatch(&c, "none", "POST", b"").unwrap();
    assert!(v.is_empty());
    let (_, d) = Aggregator::new(c.waits_for_all(), v.len());
    assert!(matches!(d, Decision::Respond(RequestOutcome::Success)));
}

#[test]
fn later_configuration_replaces_earlier() {
    let mut c = config(None);
    c.add_endpoint("ops".to_string(), vec![]);
    assert_eq!(c.transformers_for("ops").unwrap().len(), 0);
    assert_eq!(c.transformers_for("git").unwrap().len(), 1);
}

#[test]
fn waits_for_all_defaults_to_true() {
    assert!(config(None).waits_for_all());
    assert!(config(Some(true)).waits_for_all());
    assert!(!config(Some(false)).waits_for_all());
}

#[test]
fn continue_on_error_attempts_all_and_reports_last_failure() {
    let outcomes = vec![Err("a".to_string()), Ok(()), Err("b".to_string()), Ok(())];
    let (o, seen) = aggregate(true, &outcomes);
    assert_eq!(seen, 4);
    assert_eq!(failed(&o), Some("b".to_string()));
    assert_eq!(o.status_code(), 500);
    assert_eq!(o.response_body(), "Internal server error: b");
}

#[test]
fn fail_fast_reports_first_completed_failure() {
    let outcomes = vec![Err("first".to_string()), Ok(()), Err("later".to_string())];
    let (o, seen) = aggregate(false, &outcomes);
    assert_eq!(seen, 1);
    assert_eq!(failed(&o), Some("first".to_string()));
    let outcomes = vec![Ok(()), Err("second".to_string()), Err("third".to_string())];
    let (o, seen) = aggregate(false, &outcomes);
    assert_eq!(seen, 2);
    assert_eq!(failed(&o), Some("second".to_string()));
}

#[test]
fn no_failure_is_success() {
    for waits in [true, false] {
        let (o, seen) = aggregate(waits, &vec![Ok(()), Ok(()), Ok(())]);
        assert_eq!(seen, 3);
        assert!(matches!(o, RequestOutcome::Success));
        assert_eq!(o.status_code(), 200);
        assert_eq!(o.response_body(), "OK");
    }
    let (o, seen) = aggregate(true, &vec![]);
    assert_eq!(seen, 0);
    assert!(matches!(o, RequestOutcome::Success));
}

#[test]
fn aggregator_steps() {
    let (mut a, d) = Aggregator::new(true, 2);
    assert!(matches!(d, Decision::Wait));
    assert_eq!(a.pending(), 2);
    assert!(matches!(a.observe(Err("x".to_string())), Decision::Wait));
    assert_eq!(a.pending(), 1);
    match a.observe(Ok(())) {
        Decision::Respond(RequestOutcome::Failed(e)) => assert_eq!(e, "x"),
        _ => panic!("expected a failure"),
    }
    let (mut b, _) = Aggregator::new(false, 3);
    match b.observe(Err("y".to_string())) {
        Decision::Respond(RequestOutcome::Failed(e)) => assert_eq!(e, "y"),
        _ => panic!("expected a failure"),
    }
}
