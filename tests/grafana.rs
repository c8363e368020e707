use rust_webhook_transformer::transformer::{GrafanaToHookshotTransformer, HookshotMessage};

fn alerting(just_show_message: Option<bool>) -> GrafanaToHookshotTransformer {
    GrafanaToHookshotTransformer { uri: "http://bridge/hook".to_string(), just_show_message }
}

fn post(body: &str) -> Result<HookshotMessage, String> {
    alerting(None).handle("POST", body.as_bytes())
}

fn alert(status: &str, name: &str) -> String {
    format!(
        "{{\"status\":\"{}\",\"labels\":{{\"alertname\":\"{}\"}},\"annotations\":{{}}}}",
        status, name
    )
}

fn alerts(items: &[String]) -> String {
    format!("{{\"alerts\":[{}]}}", items.join(","))
}

#[test]
fn firing_and_resolved_title() {
    let body = "{\"alerts\":[{\"status\":\"firing\",\"labels\":{\"alertname\":\"CPU\",\"instance\":\"host1\"},\"annotations\":{\"summary\":\"high load\"}},{\"status\":\"resolved\",\"labels\":{\"alertname\":\"Disk\"},\"annotations\":{}}]}";
    let m = post(body).unwrap();
    assert_eq!(m.text, "\u{1f6a8} 1 alert is firing (1 resolved)");
    assert_eq!(
        m.html.unwrap(),
        "<h3>\u{1f6a8} 1 alert is firing (1 resolved)</h3><p>\u{1f534} <b>CPU</b> at <code>host1</code>: high load</p><p>\u{1f7e2} <b>Disk</b></p>"
    );
    assert_eq!(m.username, None);
}

#[test]
fn plural_switches_at_one() {
    let two = post(&alerts(&[alert("firing", "a"), alert("firing", "b")])).unwrap();
    assert_eq!(two.text, "\u{1f6a8} 2 alerts are firing");
    let one = post(&alerts(&[alert("firing", "a")])).unwrap();
    assert_eq!(one.text, "\u{1f6a8} 1 alert is firing");
}

#[test]
fn firing_with_pending_and_resolved() {
    let body = alerts(&[
        alert("firing", "a"),
        alert("alerting", "b"),
        alert("alerting", "c"),
        alert("resolved", "d"),
    ]);
    let m = post(&body).unwrap();
    assert_eq!(m.text, "\u{1f6a8} 1 alert is firing (2 pending and 1 resolved)");
}

#[test]
fn pending_title() {
    let m = post(&alerts(&[alert("alerting", "a"), alert("resolved", "b"), alert("resolved", "c")])).unwrap();
    assert_eq!(m.text, "\u{26a0}\u{fe0f} 1 alert is pending (2 resolved)...");
    let m = post(&alerts(&[alert("alerting", "a"), alert("alerting", "b")])).unwrap();
    assert_eq!(m.text, "\u{26a0}\u{fe0f} 2 alerts are pending...");
}

#[test]
fn all_resolved_title() {
    let m = post(&alerts(&[alert("resolved", "a")])).unwrap();
    assert_eq!(m.text, "\u{2705} All alerts are resolved!");
    let empty = post("{\"alerts\":[]}").unwrap();
    assert_eq!(empty.text, "\u{2705} All alerts are resolved!");
    assert_eq!(empty.html.unwrap(), "<h3>\u{2705} All alerts are resolved!</h3>");
}

#[test]
fn unknown_status_is_rendered_but_not_counted() {
    let m = post(&alerts(&[alert("weird", "x")])).unwrap();
    assert_eq!(m.text, "\u{2705} All alerts are resolved!");
    assert_eq!(
        m.html.unwrap(),
        "<h3>\u{2705} All alerts are resolved!</h3><p>\u{26aa} <b>x</b></p>"
    );
}

#[test]
fn description_and_links() {
    let body = "{\"alerts\":[{\"status\":\"alerting\",\"labels\":{\"alertname\":\"Mem\"},\"annotations\":{\"description\":\"memory is low\"},\"silenceURL\":\"http://s\",\"panelURL\":\"\",\"dashboardURL\":\"http://d\"}]}";
    let m = post(body).unwrap();
    assert_eq!(
        m.html.unwrap(),
        "<h3>\u{26a0}\u{fe0f} 1 alert is pending...</h3><p>\u{1f7e1} <b>Mem</b><br>memory is low<br>\u{2192} <a href=\"http://d\">dashboard</a>, <a href=\"http://s\">silence</a></p>"
    );
}

#[test]
fn show_message_only() {
    let m = alerting(Some(true)).handle("POST", b"{\"message\":\"hello\"}").unwrap();
    assert_eq!(m.text, "hello");
    assert_eq!(m.html, None);
    assert_eq!(m.username, None);
}

#[test]
fn show_message_only_needs_a_string_message() {
    let t = alerting(Some(true));
    assert_eq!(t.handle("PUT", b"{}").unwrap_err(), "The body does not contain a message");
    assert_eq!(t.handle("PUT", b"{\"message\":3}").unwrap_err(), "The message is not a string");
}

#[test]
fn flag_false_renders_alerts() {
    let m = alerting(Some(false)).handle("PUT", alerts(&[alert("firing", "a")]).as_bytes()).unwrap();
    assert_eq!(m.text, "\u{1f6a8} 1 alert is firing");
}

#[test]
fn method_gate() {
    assert_eq!(
        alerting(None).handle("GET", b"{\"alerts\":[]}").unwrap_err(),
        "Only POST and PUT requests are supported"
    );
}

#[test]
fn body_gates() {
    let utf8 = alerting(None).handle("POST", &[0xff, 0xfe]).unwrap_err();
    assert!(utf8.starts_with("Failed to parse the body as UTF-8: "));
    assert!(utf8.len() > "Failed to parse the body as UTF-8: ".len());
    let json = post("not json").unwrap_err();
    assert!(json.starts_with("Failed to parse the body as JSON: "));
    assert!(json.len() > "Failed to parse the body as JSON: ".len());
    assert_eq!(post("[1,2]").unwrap_err(), "The body is not a JSON object");
}

#[test]
fn alert_field_errors() {
    assert_eq!(post("{}").unwrap_err(), "The body does not contain alerts");
    assert_eq!(post("{\"alerts\":{}}").unwrap_err(), "The alerts are not an array");
    assert_eq!(post("{\"alerts\":[1]}").unwrap_err(), "An alert is not an object");
    assert_eq!(post("{\"alerts\":[{}]}").unwrap_err(), "An alert does not have a status");
    assert_eq!(post("{\"alerts\":[{\"status\":1}]}").unwrap_err(), "An alert's status is not a string");
    assert_eq!(post("{\"alerts\":[{\"status\":\"firing\"}]}").unwrap_err(), "An alert does not have labels");
    assert_eq!(
        post("{\"alerts\":[{\"status\":\"firing\",\"labels\":{}}]}").unwrap_err(),
        "An alert does not have a alertname in its labels"
    );
    assert_eq!(
        post("{\"alerts\":[{\"status\":\"firing\",\"labels\":{\"alertname\":\"a\"}}]}").unwrap_err(),
        "An alert does not have annotations"
    );
    assert_eq!(
        post("{\"alerts\":[{\"status\":\"firing\",\"labels\":{\"alertname\":\"a\"},\"annotations\":[]}]}").unwrap_err(),
        "An alert's annotations are not an object"
    );
}

#[test]
fn first_bad_alert_decides() {
    let body = format!("{{\"alerts\":[{},1,{{}}]}}", alert("firing", "a"));
    assert_eq!(post(&body).unwrap_err(), "An alert is not an object");
}

#[test]
fn transform_on_parsed_payload() {
    let v: serde_json::Value = serde_json::from_str("{\"alerts\":[]}").unwrap();
    let m = alerting(None).transform(&v).unwrap();
    assert_eq!(m.text, "\u{2705} All alerts are resolved!");
}

#[test]
fn same_input_same_message() {
    let body = alerts(&[alert("firing", "a"), alert("resolved", "b")]);
    let a = post(&body).unwrap();
    let b = GrafanaToHookshotTransformer { uri: "http://other".to_string(), just_show_message: None }
        .handle("POST", body.as_bytes())
        .unwrap();
    assert_eq!(a.text, b.text);
    assert_eq!(a.html, b.html);
    assert_eq!(a.username, b.username);
}
