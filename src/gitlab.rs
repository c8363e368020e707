//! Source-control payloads (GitLab style): pushes, tag pushes and pipeline
//! events, each told in one line and a rendered heading.

use vstd::prelude::*;
use crate::extract::{
    as_object, as_u64, get_items_member, get_object, get_object_member, get_text_member, get_u64,
    get_value, items_member, lookup, object_member, text_member,
};
use crate::json::{json_view, views_are, JsonView};
use crate::message::{outcome_view, rich, HookshotMessage, MessageView};
use crate::request::{body_value, is_post, read_body};
use crate::text::{decimal, decimal_string, prefix_chars, same_text};

verus! {

/// Configuration of the source-control transformer.
#[derive(Debug)]
pub struct GitlabToHookshotTransformer {
    /// Where the messages are delivered.
    pub uri: String,
}

/// The name and web address of the payload's project.
pub open spec fn project_of(body: JsonView) -> Result<(Seq<char>, Seq<char>), Seq<char>> {
    match object_member(body, "project"@, "The body does not contain a project"@, "The project is not a JSON object"@) {
        Err(e) => Err(e),
        Ok(p) => match text_member(p, "name"@, "The project does not contain a name"@, "The name is not a string"@) {
            Err(e) => Err(e),
            Ok(name) => match text_member(p, "web_url"@, "The project does not contain a web_url"@, "The web_url is not a string"@) {
                Err(e) => Err(e),
                Ok(url) => Ok((name, url)),
            },
        },
    }
}

/// The user that pushed.
pub open spec fn user_of(body: JsonView) -> Result<Seq<char>, Seq<char>> {
    text_member(body, "user_name"@, "The body does not contain a user_name"@, "The user_name is not a string"@)
}

/// The first eight characters of a commit id, or all of it where it is shorter.
pub open spec fn short_id(id: Seq<char>) -> Seq<char> {
    if id.len() < 8 {
        id
    } else {
        id.take(8)
    }
}

/// One commit as a rendered line: its short id, linked, then its message.
pub open spec fn commit_line(c: JsonView) -> Result<Seq<char>, Seq<char>> {
    match as_object(c, "A commit is not a JSON object"@) {
        Err(e) => Err(e),
        Ok(_) => match text_member(c, "id"@, "A commit does not contain an id"@, "The id is not a string"@) {
            Err(e) => Err(e),
            Ok(id) => match text_member(c, "url"@, "A commit does not contain an url"@, "The url is not a string"@) {
                Err(e) => Err(e),
                Ok(url) => match text_member(c, "message"@, "A commit does not contain a message"@, "The message is not a string"@) {
                    Err(e) => Err(e),
                    Ok(message) => Ok("<a href=\""@ + url + "\"><code>"@ + short_id(id) + "</code></a> "@ + message + "<br>"@),
                },
            },
        },
    }
}

/// The lines of the commits, one after the other; the first commit that
/// cannot be read decides the failure.
pub open spec fn commit_lines(commits: Seq<JsonView>) -> Result<Seq<char>, Seq<char>>
    decreases commits.len(),
{
    if commits.len() == 0 {
        Ok(Seq::empty())
    } else {
        match commit_lines(commits.drop_last()) {
            Err(e) => Err(e),
            Ok(done) => match commit_line(commits.last()) {
                Err(e) => Err(e),
                Ok(l) => Ok(done + l),
            },
        }
    }
}

/// "commit" for one, "commits" otherwise.
pub open spec fn commit_word(n: nat) -> Seq<char> {
    if n == 1 {
        " commit"@
    } else {
        " commits"@
    }
}

/// The message for a push.
pub open spec fn push_message(body: JsonView) -> Result<MessageView, Seq<char>> {
    match project_of(body) {
        Err(e) => Err(e),
        Ok((name, url)) => match user_of(body) {
            Err(e) => Err(e),
            Ok(user) => match items_member(body, "commits"@, "The body does not contain a commits"@, "The commits is not an array"@) {
                Err(e) => Err(e),
                Ok(commits) => match commit_lines(commits) {
                    Err(e) => Err(e),
                    Ok(lines) => Ok(rich(
                        user + " pushed "@ + decimal(commits.len()) + commit_word(commits.len()) + " to "@ + name,
                        "<h3>"@ + user + " pushed "@ + decimal(commits.len()) + commit_word(commits.len())
                            + " to <a href=\""@ + url + "\">"@ + name + "</a></h3>"@ + lines,
                    )),
                },
            },
        },
    }
}

/// The message for a tag push.
pub open spec fn tag_push_message(body: JsonView) -> Result<MessageView, Seq<char>> {
    match project_of(body) {
        Err(e) => Err(e),
        Ok((name, url)) => match user_of(body) {
            Err(e) => Err(e),
            Ok(user) => Ok(rich(
                user + " pushed a tag to "@ + name,
                "<h3>"@ + user + " pushed a tag to <a href=\""@ + url + "\">"@ + name + "</a></h3>"@,
            )),
        },
    }
}

/// The message for a pipeline event.
pub open spec fn pipeline_message(body: JsonView) -> Result<MessageView, Seq<char>> {
    match project_of(body) {
        Err(e) => Err(e),
        Ok((name, url)) => match object_member(body, "object_attributes"@, "The body does not contain object_attributes"@, "The object_attributes is not a JSON object"@) {
            Err(e) => Err(e),
            Ok(attrs) => match lookup(attrs, "id"@, "The pipeline does not contain an id"@) {
                Err(e) => Err(e),
                Ok(idv) => match as_u64(idv, "The id is not an integer"@) {
                    Err(e) => Err(e),
                    Ok(id) => match text_member(attrs, "status"@, "The pipeline does not contain a status"@, "The status is not a string"@) {
                        Err(e) => Err(e),
                        Ok(status) => match text_member(attrs, "url"@, "The pipeline does not contain an url"@, "The url is not a string"@) {
                            Err(e) => Err(e),
                            Ok(purl) => Ok(rich(
                                "Pipeline #"@ + decimal(id as nat) + " "@ + status + " for "@ + name,
                                "<h3>Pipeline <a href=\""@ + purl + "\">#"@ + decimal(id as nat) + "</a> "@ + status
                                    + " for <a href=\""@ + url + "\">"@ + name + "</a></h3>"@,
                            )),
                        },
                    },
                },
            },
        },
    }
}

/// The message for a parsed payload, chosen by its `object_kind`, or why there is none.
pub open spec fn gitlab_message(body: JsonView) -> Result<MessageView, Seq<char>> {
    match text_member(body, "object_kind"@, "The body does not contain an object_kind"@, "The object_kind is not a string"@) {
        Err(e) => Err(e),
        Ok(kind) => if kind == "push"@ {
            push_message(body)
        } else if kind == "tag_push"@ {
            tag_push_message(body)
        } else if kind == "pipeline"@ {
            pipeline_message(body)
        } else {
            Err("Unsupported object_kind: "@ + kind)
        },
    }
}

/// The message for a request, or why there is none.
pub open spec fn gitlab_outcome(method: Seq<char>, body: Seq<u8>) -> Result<MessageView, Seq<char>> {
    if !is_post(method) {
        Err("Only POST requests are supported"@)
    } else {
        match body_value(body) {
            Err(e) => Err(e),
            Ok(v) => gitlab_message(v),
        }
    }
}

fn read_project<'a>(body: &'a serde_json::Value) -> (r: Result<(&'a str, &'a str), String>)
    ensures
        match project_of(json_view(*body)) {
            Ok((name, url)) => r matches Ok((n, u)) && n@ == name && u@ == url,
            Err(e) => r matches Err(x) && x@ == e,
        },
{
    let p = get_object_member(body, "project", "The body does not contain a project", "The project is not a JSON object")?;
    let name = get_text_member(p, "name", "The project does not contain a name", "The name is not a string")?;
    let url = get_text_member(p, "web_url", "The project does not contain a web_url", "The web_url is not a string")?;
    Ok((name, url))
}

fn read_user<'a>(body: &'a serde_json::Value) -> (r: Result<&'a str, String>)
    ensures
        match user_of(json_view(*body)) {
            Ok(u) => r matches Ok(x) && x@ == u,
            Err(e) => r matches Err(x) && x@ == e,
        },
{
    get_text_member(body, "user_name", "The body does not contain a user_name", "The user_name is not a string")
}

fn render_commit(c: &serde_json::Value) -> (r: Result<String, String>)
    ensures
        match commit_line(json_view(*c)) {
            Ok(l) => r matches Ok(x) && x@ == l,
            Err(e) => r matches Err(x) && x@ == e,
        },
{
    let c = get_object(c, "A commit is not a JSON object")?;
    let id = get_text_member(c, "id", "A commit does not contain an id", "The id is not a string")?;
    let url = get_text_member(c, "url", "A commit does not contain an url", "The url is not a string")?;
    let message = get_text_member(c, "message", "A commit does not contain a message", "The message is not a string")?;
    let mut s = "<a href=\"".to_string();
    s.append(url);
    s.append("\"><code>");
    s.append(prefix_chars(id, 8).as_str());
    s.append("</code></a> ");
    s.append(message);
    s.append("<br>");
    Ok(s)
}

proof fn lemma_commit_lines_error_persists(commits: Seq<JsonView>, k: int)
    requires
        0 <= k <= commits.len(),
        commit_lines(commits.take(k)) is Err,
    ensures
        commit_lines(commits) == commit_lines(commits.take(k)),
    decreases commits.len() - k,
{
    if k < commits.len() {
        assert(commits.take(k + 1).drop_last() =~= commits.take(k));
        lemma_commit_lines_error_persists(commits, k + 1);
    } else {
        assert(commits.take(k) =~= commits);
    }
}

/// Appends the rendered commits to `out`, or fails on the first that cannot be read.
fn render_commits(out: &mut String, commits: &Vec<serde_json::Value>, Ghost(views): Ghost<Seq<JsonView>>) -> (r: Result<(), String>)
    requires
        views_are(commits@, views),
    ensures
        match commit_lines(views) {
            Ok(lines) => r is Ok && final(out)@ == old(out)@ + lines,
            Err(e) => r matches Err(x) && x@ == e,
        },
{
    let ghost start = out@;
    let mut i: usize = 0;
    proof {
        assert(views.take(0) =~= Seq::<JsonView>::empty());
        assert(out@ =~= start + Seq::<char>::empty());
    }
    while i < commits.len()
        invariant
            0 <= i <= commits.len(),
            views_are(commits@, views),
            commit_lines(views.take(i as int)) matches Ok(done) && out@ == start + done,
        decreases commits.len() - i,
    {
        proof {
            assert(views.take(i + 1).drop_last() =~= views.take(i as int));
            assert(views.take(i + 1).last() == views[i as int]);
        }
        match render_commit(&commits[i]) {
            Ok(line) => {
                out.append(line.as_str());
                proof {
                    let done = commit_lines(views.take(i as int))->Ok_0;
                    assert(out@ =~= start + (done + line@));
                }
            },
            Err(e) => {
                proof {
                    lemma_commit_lines_error_persists(views, (i + 1) as int);
                }
                return Err(e);
            },
        }
        i += 1;
    }
    proof {
        assert(views.take(commits.len() as int) =~= views);
    }
    Ok(())
}

fn push(body: &serde_json::Value) -> (r: Result<HookshotMessage, String>)
    ensures
        outcome_view(r) == push_message(json_view(*body)),
{
    let (name, url) = read_project(body)?;
    let user = read_user(body)?;
    let commits = get_items_member(body, "commits", "The body does not contain a commits", "The commits is not an array")?;
    let ghost views = match items_member(json_view(*body), "commits"@, "The body does not contain a commits"@, "The commits is not an array"@) {
        Ok(v) => v,
        Err(_) => Seq::empty(),
    };
    let n = decimal_string(commits.len() as u64);
    let word = if commits.len() == 1 { " commit" } else { " commits" };
    let mut text = user.to_string();
    text.append(" pushed ");
    text.append(n.as_str());
    text.append(word);
    text.append(" to ");
    text.append(name);
    let mut html = "<h3>".to_string();
    html.append(user);
    html.append(" pushed ");
    html.append(n.as_str());
    html.append(word);
    html.append(" to <a href=\"");
    html.append(url);
    html.append("\">");
    html.append(name);
    html.append("</a></h3>");
    render_commits(&mut html, commits, Ghost(views))?;
    Ok(HookshotMessage::rich(text, html))
}

fn tag_push(body: &serde_json::Value) -> (r: Result<HookshotMessage, String>)
    ensures
        outcome_view(r) == tag_push_message(json_view(*body)),
{
    let (name, url) = read_project(body)?;
    let user = read_user(body)?;
    let mut text = user.to_string();
    text.append(" pushed a tag to ");
    text.append(name);
    let mut html = "<h3>".to_string();
    html.append(user);
    html.append(" pushed a tag to <a href=\"");
    html.append(url);
    html.append("\">");
    html.append(name);
    html.append("</a></h3>");
    Ok(HookshotMessage::rich(text, html))
}

fn pipeline(body: &serde_json::Value) -> (r: Result<HookshotMessage, String>)
    ensures
        outcome_view(r) == pipeline_message(json_view(*body)),
{
    let (name, url) = read_project(body)?;
    let attrs = get_object_member(
        body,
        "object_attributes",
        "The body does not contain object_attributes",
        "The object_attributes is not a JSON object",
    )?;
    let idv = get_value(attrs, "id", "The pipeline does not contain an id")?;
    let id = get_u64(idv, "The id is not an integer")?;
    let status = get_text_member(attrs, "status", "The pipeline does not contain a status", "The status is not a string")?;
    let purl = get_text_member(attrs, "url", "The pipeline does not contain an url", "The url is not a string")?;
    let number = decimal_string(id);
    let mut text = "Pipeline #".to_string();
    text.append(number.as_str());
    text.append(" ");
    text.append(status);
    text.append(" for ");
    text.append(name);
    let mut html = "<h3>Pipeline <a href=\"".to_string();
    html.append(purl);
    html.append("\">#");
    html.append(number.as_str());
    html.append("</a> ");
    html.append(status);
    html.append(" for <a href=\"");
    html.append(url);
    html.append("\">");
    html.append(name);
    html.append("</a></h3>");
    Ok(HookshotMessage::rich(text, html))
}

impl GitlabToHookshotTransformer {
    /// Builds the message for a parsed payload, by its `object_kind`.
    pub fn transform(&self, body: &serde_json::Value) -> (r: Result<HookshotMessage, String>)
        ensures
            outcome_view(r) == gitlab_message(json_view(*body)),
    {
        let kind = get_text_member(body, "object_kind", "The body does not contain an object_kind", "The object_kind is not a string")?;
        if same_text(kind, "push") {
            push(body)
        } else if same_text(kind, "tag_push") {
            tag_push(body)
        } else if same_text(kind, "pipeline") {
            pipeline(body)
        } else {
            let mut m = "Unsupported object_kind: ".to_string();
            m.append(kind);
            Err(m)
        }
    }

    /// Checks the method, reads the body and builds the message for a request.
    pub fn handle(&self, method: &str, body: &[u8]) -> (r: Result<HookshotMessage, String>)
        ensures
            outcome_view(r) == gitlab_outcome(method@, body@),
    {
        if !same_text(method, "POST") {
            return Err("Only POST requests are supported".to_string());
        }
        let v = read_body(body)?;
        self.transform(&v)
    }
}

} // verus!
