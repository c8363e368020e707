//! Alerting-dashboard payloads (Grafana style): a list of alerts becomes a
//! title that counts them by status and a rendered body with one paragraph
//! per alert.

use vstd::prelude::*;
use crate::extract::{
    as_object, get_items_member, get_object, get_object_member, get_optional_nonempty_text,
    get_optional_text, get_text_member, items_member, object_member, optional_nonempty_text,
    optional_text, text_member,
};
use crate::json::{json_view, views_are, JsonView};
use crate::message::{outcome_view, plain, rich, HookshotMessage, MessageView};
use crate::request::{body_value, is_post_or_put, read_body};
use crate::text::{decimal, decimal_string, join, join_strings, same_text, texts};

verus! {

/// Configuration of the alerting-dashboard transformer.
#[derive(Debug)]
pub struct GrafanaToHookshotTransformer {
    /// Where the messages are delivered.
    pub uri: String,
    /// Forward the payload's `message` as it is, instead of rendering its alerts.
    pub just_show_message: Option<bool>,
}

/// What the transformer reads of one alert.
pub struct AlertView {
    pub status: Seq<char>,
    pub alertname: Seq<char>,
    pub instance: Option<Seq<char>>,
    pub summary: Option<Seq<char>>,
    pub description: Option<Seq<char>>,
    pub silence_url: Option<Seq<char>>,
    pub panel_url: Option<Seq<char>>,
    pub dashboard_url: Option<Seq<char>>,
}

/// Reads one alert, or says what is wrong with it.
pub open spec fn parse_alert(a: JsonView) -> Result<AlertView, Seq<char>> {
    match as_object(a, "An alert is not an object"@) {
        Err(e) => Err(e),
        Ok(_) => match text_member(a, "status"@, "An alert does not have a status"@, "An alert's status is not a string"@) {
            Err(e) => Err(e),
            Ok(status) => match object_member(a, "labels"@, "An alert does not have labels"@, "An alert's labels are not an object"@) {
                Err(e) => Err(e),
                Ok(labels) => match text_member(labels, "alertname"@, "An alert does not have a alertname in its labels"@, "An alert's alertname in its labels is not a string"@) {
                    Err(e) => Err(e),
                    Ok(alertname) => match object_member(a, "annotations"@, "An alert does not have annotations"@, "An alert's annotations are not an object"@) {
                        Err(e) => Err(e),
                        Ok(annotations) => Ok(AlertView {
                            status,
                            alertname,
                            instance: optional_text(labels, "instance"@),
                            summary: optional_text(annotations, "summary"@),
                            description: optional_text(annotations, "description"@),
                            silence_url: optional_nonempty_text(a, "silenceURL"@),
                            panel_url: optional_nonempty_text(a, "panelURL"@),
                            dashboard_url: optional_nonempty_text(a, "dashboardURL"@),
                        }),
                    },
                },
            },
        },
    }
}

/// Reads the alerts in order; the first one that cannot be read decides the failure.
pub open spec fn parse_alerts(items: Seq<JsonView>) -> Result<Seq<AlertView>, Seq<char>>
    decreases items.len(),
{
    if items.len() == 0 {
        Ok(Seq::empty())
    } else {
        match parse_alerts(items.drop_last()) {
            Err(e) => Err(e),
            Ok(done) => match parse_alert(items.last()) {
                Err(e) => Err(e),
                Ok(a) => Ok(done.push(a)),
            },
        }
    }
}

/// How many of the alerts have the status `status`.
pub open spec fn count_status(alerts: Seq<AlertView>, status: Seq<char>) -> nat
    decreases alerts.len(),
{
    if alerts.len() == 0 {
        0
    } else {
        count_status(alerts.drop_last(), status) + if alerts.last().status == status { 1nat } else { 0nat }
    }
}

/// "1 alert is", "2 alerts are".
pub open spec fn count_phrase(n: nat) -> Seq<char> {
    decimal(n) + if n == 1 { " alert is"@ } else { " alerts are"@ }
}

/// The parenthetical after a firing count: the non-zero pending and resolved counts.
pub open spec fn firing_detail(alerting: nat, resolved: nat) -> Seq<char> {
    if alerting > 0 || resolved > 0 {
        " ("@
            + (if alerting > 0 { decimal(alerting) + " pending"@ } else { Seq::empty() })
            + (if alerting > 0 && resolved > 0 { " and "@ } else { Seq::empty() })
            + (if resolved > 0 { decimal(resolved) + " resolved"@ } else { Seq::empty() })
            + ")"@
    } else {
        Seq::empty()
    }
}

/// The title for the given counts of firing, pending and resolved alerts.
pub open spec fn title(firing: nat, alerting: nat, resolved: nat) -> Seq<char> {
    if firing > 0 {
        "\u{1f6a8} "@ + count_phrase(firing) + " firing"@ + firing_detail(alerting, resolved)
    } else if alerting > 0 {
        "\u{26a0}\u{fe0f} "@ + count_phrase(alerting) + " pending"@
            + (if resolved > 0 { " ("@ + decimal(resolved) + " resolved)"@ } else { Seq::empty() })
            + "..."@
    } else {
        "\u{2705} All alerts are resolved!"@
    }
}

/// The title of a list of alerts.
pub open spec fn alerts_title(alerts: Seq<AlertView>) -> Seq<char> {
    title(
        count_status(alerts, "firing"@),
        count_status(alerts, "alerting"@),
        count_status(alerts, "resolved"@),
    )
}

/// The mark of a status.
pub open spec fn status_mark(status: Seq<char>) -> Seq<char> {
    if status == "firing"@ {
        "\u{1f534}"@
    } else if status == "alerting"@ {
        "\u{1f7e1}"@
    } else if status == "resolved"@ {
        "\u{1f7e2}"@
    } else {
        "\u{26aa}"@
    }
}

/// The first line of an alert: mark, bold name, instance and summary.
pub open spec fn headline(a: AlertView) -> Seq<char> {
    status_mark(a.status) + " <b>"@ + a.alertname + "</b>"@
        + (match a.instance { Some(i) => " at <code>"@ + i + "</code>"@, None => Seq::empty() })
        + (match a.summary { Some(s) => ": "@ + s, None => Seq::empty() })
}

/// A hyperlink to `url` that reads `label`.
pub open spec fn link(url: Seq<char>, label: Seq<char>) -> Seq<char> {
    "<a href=\""@ + url + "\">"@ + label + "</a>"@
}

/// The link to `url` where there is one.
pub open spec fn optional_link(url: Option<Seq<char>>, label: Seq<char>) -> Seq<Seq<char>> {
    match url {
        Some(u) => seq![link(u, label)],
        None => Seq::empty(),
    }
}

/// The links of an alert, in the order dashboard, panel, silence.
pub open spec fn action_links(a: AlertView) -> Seq<Seq<char>> {
    optional_link(a.dashboard_url, "dashboard"@) + optional_link(a.panel_url, "panel"@)
        + optional_link(a.silence_url, "silence"@)
}

/// The lines of an alert: its headline, its description, and its links.
pub open spec fn alert_lines(a: AlertView) -> Seq<Seq<char>> {
    seq![headline(a)]
        + (match a.description { Some(d) => seq![d], None => Seq::empty() })
        + (if action_links(a).len() > 0 {
            seq!["\u{2192} "@ + join(action_links(a), ", "@)]
        } else {
            Seq::empty()
        })
}

/// An alert as a paragraph, its lines joined by line breaks.
pub open spec fn paragraph(a: AlertView) -> Seq<char> {
    "<p>"@ + join(alert_lines(a), "<br>"@) + "</p>"@
}

/// The paragraphs of the alerts, one after the other.
pub open spec fn paragraphs(alerts: Seq<AlertView>) -> Seq<char>
    decreases alerts.len(),
{
    if alerts.len() == 0 {
        Seq::empty()
    } else {
        paragraphs(alerts.drop_last()) + paragraph(alerts.last())
    }
}

/// The rendered body: the title as a heading, then one paragraph per alert.
pub open spec fn alerts_html(alerts: Seq<AlertView>) -> Seq<char> {
    "<h3>"@ + alerts_title(alerts) + "</h3>"@ + paragraphs(alerts)
}

/// The message for a parsed payload, or why there is none.
pub open spec fn grafana_message(just_show_message: bool, body: JsonView) -> Result<MessageView, Seq<char>> {
    if just_show_message {
        match text_member(body, "message"@, "The body does not contain a message"@, "The message is not a string"@) {
            Ok(m) => Ok(plain(m)),
            Err(e) => Err(e),
        }
    } else {
        match items_member(body, "alerts"@, "The body does not contain alerts"@, "The alerts are not an array"@) {
            Err(e) => Err(e),
            Ok(items) => match parse_alerts(items) {
                Err(e) => Err(e),
                Ok(alerts) => Ok(rich(alerts_title(alerts), alerts_html(alerts))),
            },
        }
    }
}

/// The message for a request, or why there is none.
pub open spec fn grafana_outcome(just_show_message: bool, method: Seq<char>, body: Seq<u8>) -> Result<MessageView, Seq<char>> {
    if !is_post_or_put(method) {
        Err("Only POST and PUT requests are supported"@)
    } else {
        match body_value(body) {
            Err(e) => Err(e),
            Ok(v) => grafana_message(just_show_message, v),
        }
    }
}

struct Alert<'a> {
    status: &'a str,
    alertname: &'a str,
    instance: Option<&'a str>,
    summary: Option<&'a str>,
    description: Option<&'a str>,
    silence_url: Option<&'a str>,
    panel_url: Option<&'a str>,
    dashboard_url: Option<&'a str>,
}

pub open spec fn opt_view(o: Option<&str>) -> Option<Seq<char>> {
    match o {
        Some(s) => Some(s@),
        None => None,
    }
}

impl<'a> View for Alert<'a> {
    type V = AlertView;

    closed spec fn view(&self) -> AlertView {
        AlertView {
            status: self.status@,
            alertname: self.alertname@,
            instance: opt_view(self.instance),
            summary: opt_view(self.summary),
            description: opt_view(self.description),
            silence_url: opt_view(self.silence_url),
            panel_url: opt_view(self.panel_url),
            dashboard_url: opt_view(self.dashboard_url),
        }
    }
}

spec fn alert_views<'a>(alerts: Seq<Alert<'a>>) -> Seq<AlertView> {
    alerts.map_values(|a: Alert<'a>| a@)
}

spec fn alert_result<'a>(r: Result<Alert<'a>, String>) -> Result<AlertView, Seq<char>> {
    match r {
        Ok(a) => Ok(a@),
        Err(e) => Err(e@),
    }
}

fn read_alert<'a>(a: &'a serde_json::Value) -> (r: Result<Alert<'a>, String>)
    ensures
        alert_result(r) == parse_alert(json_view(*a)),
{
    let a = get_object(a, "An alert is not an object")?;
    let status = get_text_member(a, "status", "An alert does not have a status", "An alert's status is not a string")?;
    let labels = get_object_member(a, "labels", "An alert does not have labels", "An alert's labels are not an object")?;
    let alertname = get_text_member(
        labels,
        "alertname",
        "An alert does not have a alertname in its labels",
        "An alert's alertname in its labels is not a string",
    )?;
    let instance = get_optional_text(labels, "instance");
    let annotations = get_object_member(
        a,
        "annotations",
        "An alert does not have annotations",
        "An alert's annotations are not an object",
    )?;
    let summary = get_optional_text(annotations, "summary");
    let description = get_optional_text(annotations, "description");
    let silence_url = get_optional_nonempty_text(a, "silenceURL");
    let panel_url = get_optional_nonempty_text(a, "panelURL");
    let dashboard_url = get_optional_nonempty_text(a, "dashboardURL");
    Ok(Alert { status, alertname, instance, summary, description, silence_url, panel_url, dashboard_url })
}

proof fn lemma_parse_alerts_error_persists(items: Seq<JsonView>, k: int)
    requires
        0 <= k <= items.len(),
        parse_alerts(items.take(k)) is Err,
    ensures
        parse_alerts(items) == parse_alerts(items.take(k)),
    decreases items.len() - k,
{
    if k < items.len() {
        assert(items.take(k + 1).drop_last() =~= items.take(k));
        lemma_parse_alerts_error_persists(items, k + 1);
    } else {
        assert(items.take(k) =~= items);
    }
}

fn read_alerts<'a>(items: &'a Vec<serde_json::Value>, Ghost(views): Ghost<Seq<JsonView>>) -> (r: Result<Vec<Alert<'a>>, String>)
    requires
        views_are(items@, views),
    ensures
        match parse_alerts(views) {
            Ok(alerts) => r matches Ok(v) && alert_views(v@) == alerts,
            Err(e) => r matches Err(x) && x@ == e,
        },
{
    let mut alerts: Vec<Alert<'a>> = Vec::new();
    let mut i: usize = 0;
    proof {
        assert(views.take(0) =~= Seq::<JsonView>::empty());
        assert(alert_views(alerts@) =~= Seq::<AlertView>::empty());
    }
    while i < items.len()
        invariant
            0 <= i <= items.len(),
            views_are(items@, views),
            parse_alerts(views.take(i as int)) == Ok::<Seq<AlertView>, Seq<char>>(alert_views(alerts@)),
        decreases items.len() - i,
    {
        proof {
            assert(views.take(i + 1).drop_last() =~= views.take(i as int));
            assert(views.take(i + 1).last() == views[i as int]);
        }
        let a = read_alert(&items[i]);
        match a {
            Ok(a) => {
                let ghost before = alerts@;
                alerts.push(a);
                proof {
                    assert(alerts@.drop_last() =~= before);
                    assert(alert_views(alerts@) =~= alert_views(before).push(a@));
                }
            },
            Err(e) => {
                proof {
                    lemma_parse_alerts_error_persists(views, (i + 1) as int);
                }
                return Err(e);
            },
        }
        i += 1;
    }
    proof {
        assert(views.take(items.len() as int) =~= views);
    }
    Ok(alerts)
}

fn count_alerts(alerts: &Vec<Alert>, status: &str) -> (r: usize)
    ensures
        r == count_status(alert_views(alerts@), status@),
{
    let mut r: usize = 0;
    let mut i: usize = 0;
    while i < alerts.len()
        invariant
            0 <= i <= alerts.len(),
            r <= i,
            r == count_status(alert_views(alerts@).take(i as int), status@),
        decreases alerts.len() - i,
    {
        proof {
            let views = alert_views(alerts@);
            assert(views.take(i + 1).drop_last() =~= views.take(i as int));
            assert(views.take(i + 1).last() == alerts@[i as int]@);
        }
        if same_text(alerts[i].status, status) {
            r += 1;
        }
        i += 1;
    }
    proof {
        assert(alert_views(alerts@).take(alerts.len() as int) =~= alert_views(alerts@));
    }
    r
}

fn count_phrase_string(n: usize) -> (r: String)
    ensures
        r@ == count_phrase(n as nat),
{
    let mut s = decimal_string(n as u64);
    if n == 1 {
        s.append(" alert is");
    } else {
        s.append(" alerts are");
    }
    s
}

fn title_string(firing: usize, alerting: usize, resolved: usize) -> (r: String)
    ensures
        r@ == title(firing as nat, alerting as nat, resolved as nat),
{
    if firing > 0 {
        let mut s = "\u{1f6a8} ".to_string();
        s.append(count_phrase_string(firing).as_str());
        s.append(" firing");
        let ghost head = s@;
        if alerting > 0 || resolved > 0 {
            s.append(" (");
            let ghost a = s@;
            if alerting > 0 {
                s.append(decimal_string(alerting as u64).as_str());
                s.append(" pending");
            }
            assert(s@ =~= a + (if alerting > 0 { decimal(alerting as nat) + " pending"@ } else { Seq::empty() }));
            let ghost b = s@;
            if alerting > 0 && resolved > 0 {
                s.append(" and ");
            }
            assert(s@ =~= b + (if alerting > 0 && resolved > 0 { " and "@ } else { Seq::empty() }));
            let ghost c = s@;
            if resolved > 0 {
                s.append(decimal_string(resolved as u64).as_str());
                s.append(" resolved");
            }
            assert(s@ =~= c + (if resolved > 0 { decimal(resolved as nat) + " resolved"@ } else { Seq::empty() }));
            s.append(")");
        }
        assert(s@ =~= head + firing_detail(alerting as nat, resolved as nat));
        s
    } else if alerting > 0 {
        let mut s = "\u{26a0}\u{fe0f} ".to_string();
        s.append(count_phrase_string(alerting).as_str());
        s.append(" pending");
        let ghost head = s@;
        if resolved > 0 {
            s.append(" (");
            s.append(decimal_string(resolved as u64).as_str());
            s.append(" resolved)");
        }
        assert(s@ =~= head + (if resolved > 0 { " ("@ + decimal(resolved as nat) + " resolved)"@ } else { Seq::empty() }));
        s.append("...");
        s
    } else {
        "\u{2705} All alerts are resolved!".to_string()
    }
}

fn status_mark_str(status: &str) -> (r: &'static str)
    ensures
        r@ == status_mark(status@),
{
    if same_text(status, "firing") {
        "\u{1f534}"
    } else if same_text(status, "alerting") {
        "\u{1f7e1}"
    } else if same_text(status, "resolved") {
        "\u{1f7e2}"
    } else {
        "\u{26aa}"
    }
}

fn headline_string(a: &Alert) -> (r: String)
    ensures
        r@ == headline(a@),
{
    let mut s = status_mark_str(a.status).to_string();
    s.append(" <b>");
    s.append(a.alertname);
    s.append("</b>");
    let ghost b = s@;
    if let Some(i) = a.instance {
        s.append(" at <code>");
        s.append(i);
        s.append("</code>");
    }
    assert(s@ =~= b + (match a@.instance { Some(i) => " at <code>"@ + i + "</code>"@, None => Seq::empty() }));
    let ghost c = s@;
    if let Some(m) = a.summary {
        s.append(": ");
        s.append(m);
    }
    assert(s@ =~= c + (match a@.summary { Some(m) => ": "@ + m, None => Seq::empty() }));
    s
}

fn link_string(url: &str, label: &str) -> (r: String)
    ensures
        r@ == link(url@, label@),
{
    let mut s = "<a href=\"".to_string();
    s.append(url);
    s.append("\">");
    s.append(label);
    s.append("</a>");
    s
}

fn push_link(links: &mut Vec<String>, url: Option<&str>, label: &str)
    ensures
        texts(final(links)@) == texts(old(links)@) + optional_link(opt_view(url), label@),
{
    let ghost before = links@;
    if let Some(u) = url {
        links.push(link_string(u, label));
        assert(texts(links@) =~= texts(before) + optional_link(opt_view(url), label@));
    } else {
        assert(texts(links@) =~= texts(before) + optional_link(opt_view(url), label@));
    }
}

fn paragraph_string(a: &Alert) -> (r: String)
    ensures
        r@ == paragraph(a@),
{
    let mut links: Vec<String> = Vec::new();
    push_link(&mut links, a.dashboard_url, "dashboard");
    push_link(&mut links, a.panel_url, "panel");
    push_link(&mut links, a.silence_url, "silence");
    assert(texts(links@) =~= action_links(a@));
    let mut lines: Vec<String> = Vec::new();
    lines.push(headline_string(a));
    if let Some(d) = a.description {
        lines.push(d.to_string());
    }
    if links.len() > 0 {
        let mut actions = "\u{2192} ".to_string();
        actions.append(join_strings(&links, ", ").as_str());
        lines.push(actions);
    }
    assert(texts(lines@) =~= alert_lines(a@));
    let mut s = "<p>".to_string();
    s.append(join_strings(&lines, "<br>").as_str());
    s.append("</p>");
    s
}

fn alerts_html_string(alerts: &Vec<Alert>, title: &str) -> (r: String)
    requires
        title@ == alerts_title(alert_views(alerts@)),
    ensures
        r@ == alerts_html(alert_views(alerts@)),
{
    let mut s = "<h3>".to_string();
    s.append(title);
    s.append("</h3>");
    let ghost head = s@;
    let mut i: usize = 0;
    proof {
        assert(alert_views(alerts@).take(0) =~= Seq::<AlertView>::empty());
        assert(s@ =~= head + paragraphs(alert_views(alerts@).take(0)));
    }
    while i < alerts.len()
        invariant
            0 <= i <= alerts.len(),
            s@ == head + paragraphs(alert_views(alerts@).take(i as int)),
        decreases alerts.len() - i,
    {
        proof {
            let views = alert_views(alerts@);
            assert(views.take(i + 1).drop_last() =~= views.take(i as int));
            assert(views.take(i + 1).last() == alerts@[i as int]@);
        }
        s.append(paragraph_string(&alerts[i]).as_str());
        proof {
            let views = alert_views(alerts@);
            assert(s@ =~= head + paragraphs(views.take(i + 1)));
        }
        i += 1;
    }
    proof {
        assert(alert_views(alerts@).take(alerts.len() as int) =~= alert_views(alerts@));
    }
    s
}

impl GrafanaToHookshotTransformer {
    /// Builds the message for a parsed payload.
    pub fn transform(&self, body: &serde_json::Value) -> (r: Result<HookshotMessage, String>)
        ensures
            outcome_view(r) == grafana_message(self.just_show_message == Some(true), json_view(*body)),
    {
        if self.just_show_message == Some(true) {
            let m = get_text_member(body, "message", "The body does not contain a message", "The message is not a string")?;
            Ok(HookshotMessage::plain(m.to_string()))
        } else {
            let items = get_items_member(body, "alerts", "The body does not contain alerts", "The alerts are not an array")?;
            let ghost views = match items_member(json_view(*body), "alerts"@, "The body does not contain alerts"@, "The alerts are not an array"@) {
                Ok(v) => v,
                Err(_) => Seq::empty(),
            };
            let alerts = read_alerts(items, Ghost(views))?;
            let firing = count_alerts(&alerts, "firing");
            let alerting = count_alerts(&alerts, "alerting");
            let resolved = count_alerts(&alerts, "resolved");
            let title = title_string(firing, alerting, resolved);
            let html = alerts_html_string(&alerts, title.as_str());
            Ok(HookshotMessage::rich(title, html))
        }
    }

    /// Checks the method, reads the body and builds the message for a request.
    pub fn handle(&self, method: &str, body: &[u8]) -> (r: Result<HookshotMessage, String>)
        ensures
            outcome_view(r) == grafana_outcome(self.just_show_message == Some(true), method@, body@),
    {
        if !same_text(method, "POST") && !same_text(method, "PUT") {
            return Err("Only POST and PUT requests are supported".to_string());
        }
        let v = read_body(body)?;
        self.transform(&v)
    }
}

/// The title names the count of the leading status and switches between
/// singular and plural exactly at a count of one.
pub proof fn lemma_title_plural_at_one(firing: nat, alerting: nat, resolved: nat)
    ensures
        firing > 0 ==> title(firing, alerting, resolved) == "\u{1f6a8} "@ + decimal(firing)
            + (if firing == 1 { " alert is"@ } else { " alerts are"@ }) + " firing"@
            + firing_detail(alerting, resolved),
        firing == 0 && alerting > 0 ==> title(firing, alerting, resolved).take(
            ("\u{26a0}\u{fe0f} "@ + decimal(alerting) + (if alerting == 1 { " alert is"@ } else { " alerts are"@ })).len() as int,
        ) == "\u{26a0}\u{fe0f} "@ + decimal(alerting) + (if alerting == 1 { " alert is"@ } else { " alerts are"@ }),
{
    if firing == 0 && alerting > 0 {
        let head = "\u{26a0}\u{fe0f} "@ + decimal(alerting) + (if alerting == 1 { " alert is"@ } else { " alerts are"@ });
        let t = title(firing, alerting, resolved);
        assert(t.take(head.len() as int) =~= head);
    }
}

} // verus!
