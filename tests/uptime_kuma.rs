use rust_webhook_transformer::transformer::{HookshotMessage, UptimeKumaToHookshotTransformer};
use rust_webhook_transformer::uptime_kuma::detect_up_state;

fn monitor(just_show_message: Option<bool>) -> UptimeKumaToHookshotTransformer {
    UptimeKumaToHookshotTransformer { uri: "http://bridge/hook".to_string(), just_show_message }
}

fn post(body: &str) -> Result<HookshotMessage, String> {
    monitor(None).handle("POST", body.as_bytes())
}

fn heartbeat(summary: &str) -> String {
    format!(
        "{{\"heartbeat\":{{\"msg\":\"OK 200\"}},\"monitor\":{{\"name\":\"web\"}},\"msg\":\"{}\"}}",
        summary
    )
}

#[test]
fn up_marker_wins_over_others() {
    let m = post(&heartbeat("[web] [\u{2705} Up] also [\u{1f534} Down]")).unwrap();
    assert_eq!(m.text, "OK 200");
    assert_eq!(m.html.unwrap(), "<p>\u{1f7e2} <b>web</b>: OK 200</p>");
}

#[test]
fn down_marker() {
    let m = post(&heartbeat("[web] [\u{1f534} Down] timeout")).unwrap();
    assert_eq!(m.html.unwrap(), "<p>\u{1f534} <b>web</b>: OK 200</p>");
}

#[test]
fn fuzzy_markers() {
    assert_eq!(detect_up_state("[web] [Up]"), Some(true));
    assert_eq!(detect_up_state("[web] [Down]"), Some(false));
    assert_eq!(detect_up_state("Down] then Up]"), Some(true));
    assert_eq!(detect_up_state("[\u{1f534} x] Up]"), Some(false));
    assert_eq!(detect_up_state("nothing here"), None);
    assert_eq!(detect_up_state(""), None);
}

#[test]
fn unknown_state() {
    let m = post(&heartbeat("no marker")).unwrap();
    assert_eq!(m.html.unwrap(), "<p>\u{26aa} <b>web</b>: OK 200</p>");
    let m = post("{\"heartbeat\":{\"msg\":\"hi\"},\"monitor\":{\"name\":\"db\"}}").unwrap();
    assert_eq!(m.html.unwrap(), "<p>\u{26aa} <b>db</b>: hi</p>");
    let m = post("{\"heartbeat\":{\"msg\":\"hi\"},\"monitor\":{\"name\":\"db\"},\"msg\":5}").unwrap();
    assert_eq!(m.html.unwrap(), "<p>\u{26aa} <b>db</b>: hi</p>");
}

#[test]
fn show_message_only_uptime() {
    let m = monitor(Some(true)).handle("POST", b"{\"msg\":\"[web] [\\u2705 Up]\"}").unwrap();
    assert_eq!(m.text, "[web] [\u{2705} Up]");
    assert_eq!(m.html, None);
    assert_eq!(monitor(Some(true)).handle("POST", b"{}").unwrap_err(), "The body does not contain a msg");
}

#[test]
fn heartbeat_field_errors() {
    assert_eq!(post("{}").unwrap_err(), "The body does not contain a heartbeat");
    assert_eq!(post("{\"heartbeat\":{}}").unwrap_err(), "The body does not contain a monitor");
    assert_eq!(post("{\"heartbeat\":{},\"monitor\":3}").unwrap_err(), "The monitor does not contain a name");
    assert_eq!(post("{\"heartbeat\":{},\"monitor\":{\"name\":1}}").unwrap_err(), "The name is not a string");
    assert_eq!(
        post("{\"heartbeat\":{},\"monitor\":{\"name\":\"a\"}}").unwrap_err(),
        "The heartbeat does not contain a msg"
    );
    assert_eq!(
        post("{\"heartbeat\":{\"msg\":[]},\"monitor\":{\"name\":\"a\"}}").unwrap_err(),
        "The msg is not a string"
    );
}

#[test]
fn uptime_accepts_post_only() {
    assert_eq!(monitor(None).handle("PUT", heartbeat("x").as_bytes()).unwrap_err(), "Only POST requests are supported");
}
