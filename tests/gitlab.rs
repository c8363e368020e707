use rust_webhook_transformer::transformer::{GitlabToHookshotTransformer, HookshotMessage};

fn post(body: &str) -> Result<HookshotMessage, String> {
    GitlabToHookshotTransformer { uri: "http://bridge/hook".to_string() }.handle("POST", body.as_bytes())
}

fn commit(id: &str, n: u32) -> String {
    format!("{{\"id\":\"{}\",\"url\":\"http://git/c/{}\",\"message\":\"change {}\"}}", id, n, n)
}

fn push(commits: &[String]) -> String {
    format!(
        "{{\"object_kind\":\"push\",\"user_name\":\"alice\",\"project\":{{\"name\":\"proj\",\"web_url\":\"http://git/proj\"}},\"commits\":[{}]}}",
        commits.join(",")
    )
}

#[test]
fn push_with_three_commits() {
    let body = push(&[
        commit("0123456789abcdef", 1),
        commit("fedcba9876543210", 2),
        commit("aaaaaaaabbbbbbbb", 3),
    ]);
    let m = post(&body).unwrap();
    assert_eq!(m.text, "alice pushed 3 commits to proj");
    assert_eq!(
        m.html.unwrap(),
        "<h3>alice pushed 3 commits to <a href=\"http://git/proj\">proj</a></h3>\
<a href=\"http://git/c/1\"><code>01234567</code></a> change 1<br>\
<a href=\"http://git/c/2\"><code>fedcba98</code></a> change 2<br>\
<a href=\"http://git/c/3\"><code>aaaaaaaa</code></a> change 3<br>"
    );
}

#[test]
fn push_with_one_commit_and_short_id() {
    let m = post(&push(&[commit("abc", 7)])).unwrap();
    assert_eq!(m.text, "alice pushed 1 commit to proj");
    assert!(m.html.unwrap().ends_with("<a href=\"http://git/c/7\"><code>abc</code></a> change 7<br>"));
}

#[test]
fn push_without_commits() {
    let m = post(&push(&[])).unwrap();
    assert_eq!(m.text, "alice pushed 0 commits to proj");
}

#[test]
fn tag_push() {
    let m = post("{\"object_kind\":\"tag_push\",\"user_name\":\"bob\",\"project\":{\"name\":\"p\",\"web_url\":\"http://p\"}}").unwrap();
    assert_eq!(m.text, "bob pushed a tag to p");
    assert_eq!(m.html.unwrap(), "<h3>bob pushed a tag to <a href=\"http://p\">p</a></h3>");
}

#[test]
fn pipeline() {
    let m = post("{\"object_kind\":\"pipeline\",\"project\":{\"name\":\"p\",\"web_url\":\"http://p\"},\"object_attributes\":{\"id\":4021,\"status\":\"success\",\"url\":\"http://p/pipelines/4021\"}}").unwrap();
    assert_eq!(m.text, "Pipeline #4021 success for p");
    assert_eq!(
        m.html.unwrap(),
        "<h3>Pipeline <a href=\"http://p/pipelines/4021\">#4021</a> success for <a href=\"http://p\">p</a></h3>"
    );
}

#[test]
fn pipeline_id_must_be_an_integer() {
    let e = post("{\"object_kind\":\"pipeline\",\"project\":{\"name\":\"p\",\"web_url\":\"http://p\"},\"object_attributes\":{\"id\":\"7\",\"status\":\"s\",\"url\":\"u\"}}").unwrap_err();
    assert_eq!(e, "The id is not an integer");
    let e = post("{\"object_kind\":\"pipeline\",\"project\":{\"name\":\"p\",\"web_url\":\"http://p\"},\"object_attributes\":{\"id\":-3,\"status\":\"s\",\"url\":\"u\"}}").unwrap_err();
    assert_eq!(e, "The id is not an integer");
}

#[test]
fn unsupported_kind() {
    let e = post("{\"object_kind\":\"issue\"}").unwrap_err();
    assert_eq!(e, "Unsupported object_kind: issue");
}

#[test]
fn gitlab_field_errors() {
    assert_eq!(post("{}").unwrap_err(), "The body does not contain an object_kind");
    assert_eq!(post("{\"object_kind\":1}").unwrap_err(), "The object_kind is not a string");
    assert_eq!(post("{\"object_kind\":\"push\"}").unwrap_err(), "The body does not contain a project");
    assert_eq!(post("{\"object_kind\":\"push\",\"project\":1}").unwrap_err(), "The project is not a JSON object");
    assert_eq!(
        post("{\"object_kind\":\"push\",\"project\":{\"name\":\"p\",\"web_url\":\"u\"}}").unwrap_err(),
        "The body does not contain a user_name"
    );
    assert_eq!(
        post("{\"object_kind\":\"push\",\"user_name\":\"a\",\"project\":{\"name\":\"p\",\"web_url\":\"u\"}}").unwrap_err(),
        "The body does not contain a commits"
    );
    assert_eq!(post(&push(&["{\"id\":\"x\"}".to_string()])).unwrap_err(), "A commit does not contain an url");
    assert_eq!(post(&push(&["2".to_string()])).unwrap_err(), "A commit is not a JSON object");
}

#[test]
fn gitlab_accepts_post_only() {
    let e = GitlabToHookshotTransformer { uri: "u".to_string() }.handle("GET", b"{}").unwrap_err();
    assert_eq!(e, "Only POST requests are supported");
}
