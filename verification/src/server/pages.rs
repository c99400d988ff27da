//! The pages for the operator.

use vstd::prelude::*;

use crate::ids::format_uuid;
use crate::protocol::approval::{Approval, ApprovalView, ExtraContext};
use crate::protocol::session::{EffectiveSessionStatus, EffectiveSessionStatusView, SessionView};
use crate::server::web::{html_escape, json_for_script, WebAnswer, NOT_FOUND};
use crate::text::{joined, joined3};

verus! {

/// The start of every page, up to its heading.
pub const PAGE_START: &'static str = "<!doctype html>
<html lang=\"en\">
<head>
<meta charset=\"utf-8\">
<meta name=\"viewport\" content=\"width=device-width, initial-scale=1\">
<title>Agent Hub</title>
</head>
<body>
<p id=\"error\" role=\"alert\" hidden></p>
";

/// The end of every page.
pub const PAGE_END: &'static str = "</body>
</html>
";

/// What the scripts of all pages share: showing an error until the next success,
/// sending a decision, and the lengths of a grant by the key that chooses them.
pub const SHARED_SCRIPT: &'static str = "function showError(message) {
  const box = document.getElementById('error');
  box.textContent = message;
  box.hidden = false;
}
function hideError() {
  document.getElementById('error').hidden = true;
}
const grantLengths = {'1': '30m', '2': '1h', '3': '2h', '4': '6h', '5': '24h'};
function sendDecision(id, body) {
  return fetch('/api/v1/approvals/' + id + '/resolve', {
    method: 'POST',
    headers: {'content-type': 'application/json'},
    body: JSON.stringify(body),
  });
}
";

/// The script of the dashboard.
pub const DASHBOARD_SCRIPT: &'static str = "let timedId = null;
function firstId() {
  const row = document.querySelector('[data-approval]');
  return row ? row.dataset.approval : null;
}
window.approveRow = async function (id, length) {
  try {
    const body = {decision: 'approve', message: null};
    if (length) body.approve_for = length;
    const response = await sendDecision(id, body);
    if (!response.ok) {
      showError('Approval failed: ' + await response.text());
      return;
    }
    hideError();
    await refresh();
  } catch (error) {
    showError('Approval failed: ' + error);
  }
};
window.denyRow = async function (id) {
  try {
    const response = await sendDecision(id, {decision: 'deny', message: null});
    if (!response.ok) {
      showError('Denial failed: ' + await response.text());
      return;
    }
    hideError();
    await refresh();
  } catch (error) {
    showError('Denial failed: ' + error);
  }
};
window.showTimedApproval = function (id) {
  timedId = id;
};
function createApprovalRows(approvals) {
  return approvals.map(function (approval) {
    const row = document.createElement('tr');
    row.dataset.approval = approval.id;
    row.dataset.tool = approval.tool_name;
    for (const text of [approval.tool_name, JSON.stringify(approval.tool_input), approval.project]) {
      const cell = document.createElement('td');
      cell.textContent = text;
      row.appendChild(cell);
    }
    const actions = document.createElement('td');
    const add = function (label, action) {
      const button = document.createElement('button');
      button.textContent = label;
      button.onclick = action;
      actions.appendChild(button);
    };
    add('Approve', function () { approveRow(approval.id); });
    add('Deny', function () { denyRow(approval.id); });
    if (approval.tool_name === 'Bash') {
      add('Timed approve', function () { showTimedApproval(approval.id); });
    }
    row.appendChild(actions);
    return row;
  });
}
function renderApprovals(approvals) {
  document.getElementById('approvals').replaceChildren(...createApprovalRows(approvals));
}
async function refresh() {
  try {
    const response = await fetch('/api/v1/approvals/pending');
    if (response.ok) renderApprovals(await response.json());
  } catch (error) {
    showError('Refresh failed: ' + error);
  }
}
setInterval(refresh, 5000);
document.addEventListener('keydown', function (event) {
  if (timedId && grantLengths[event.key]) {
    approveRow(timedId, grantLengths[event.key]);
    timedId = null;
    return;
  }
  const id = firstId();
  if (!id) return;
  if (event.key === 'a') approveRow(id);
  if (event.key === 'd') denyRow(id);
  const row = document.querySelector('[data-approval]');
  if (event.key === 'A' && row.dataset.tool === 'Bash') showTimedApproval(id);
});
";

/// The script of the page of one approval.
pub const DETAIL_SCRIPT: &'static str =
    "const approval = JSON.parse(document.getElementById('approval-data').textContent);
let choosing = false;
window.doApprove = async function (length) {
  try {
    const body = {decision: 'approve', message: null};
    if (length) body.approve_for = length;
    const response = await sendDecision(approval.id, body);
    if (!response.ok) {
      showError('Approval failed: ' + await response.text());
      return;
    }
    location.href = '/approvals';
  } catch (error) {
    showError('Approval failed: ' + error);
  }
};
window.doDeny = async function () {
  try {
    const response = await sendDecision(approval.id, {decision: 'deny', message: null});
    if (!response.ok) {
      showError('Denial failed: ' + await response.text());
      return;
    }
    location.href = '/approvals';
  } catch (error) {
    showError('Denial failed: ' + error);
  }
};
window.showTimedApproval = function () {
  choosing = true;
};
document.addEventListener('keydown', function (event) {
  if (choosing && grantLengths[event.key]) {
    doApprove(grantLengths[event.key]);
    choosing = false;
    return;
  }
  if (event.key === 'a') doApprove();
  if (event.key === 'd') doDeny();
  if (event.key === 'A' && approval.tool_name === 'Bash') showTimedApproval();
});
";

/// The actions of the queue.
pub const QUEUE_ACTIONS: &'static str = "<div id=\"queue-actions\">
<button id=\"queue-approve\" aria-keyshortcuts=\"a\">Approve</button>
<button id=\"queue-deny\" aria-keyshortcuts=\"d\">Deny</button>
</div>
";

/// What stands in the queue in place of its actions where nothing can be decided.
pub const QUEUE_READONLY: &'static str =
    "<p id=\"readonly-status\">Approvals cannot be decided on here.</p>
";

/// The state of the queue.
pub const QUEUE_STATE: &'static str = "<div id=\"queue-state\">Loading</div>
";

/// The script that fills the queue.
pub const QUEUE_POLL_SCRIPT: &'static str = "let current = null;
async function refresh() {
  try {
    const response = await fetch('/api/v1/approvals/pending');
    if (!response.ok) return;
    const pending = await response.json();
    current = pending.length > 0 ? pending[0] : null;
    document.getElementById('queue-state').textContent = current
      ? current.tool_name + ' ' + JSON.stringify(current.tool_input)
      : 'Nothing is pending';
  } catch (error) {
    showError('Refresh failed: ' + error);
  }
}
setInterval(refresh, 5000);
refresh();
";

/// The script that decides on what the queue shows.
pub const QUEUE_ACTION_SCRIPT: &'static str = "let choosing = false;
async function decide(body) {
  if (!current) return;
  try {
    const response = await sendDecision(current.id, body);
    if (!response.ok) {
      showError('Decision failed: ' + await response.text());
      return;
    }
    hideError();
    await refresh();
  } catch (error) {
    showError('Decision failed: ' + error);
  }
}
function approve(length) {
  const body = {decision: 'approve', message: null};
  if (length) body.approve_for = length;
  decide(body);
}
document.getElementById('queue-approve').onclick = function () { approve(); };
document.getElementById('queue-deny').onclick = function () { decide({decision: 'deny', message: null}); };
document.addEventListener('keydown', function (event) {
  if (choosing && grantLengths[event.key]) {
    approve(grantLengths[event.key]);
    choosing = false;
    return;
  }
  if (event.key === 'a') approve();
  if (event.key === 'd') decide({decision: 'deny', message: null});
  if (event.key === 'A' && current && current.tool_name === 'Bash') choosing = true;
});
";

/// The queue of approvals, for a small screen.
pub fn approval_queue(readwrite: bool) -> (r: String)
    ensures
        r@ == PAGE_START@ + QUEUE_STATE@ + (if readwrite {
            QUEUE_ACTIONS@
        } else {
            QUEUE_READONLY@
        }) + "<script>\n"@ + SHARED_SCRIPT@ + QUEUE_POLL_SCRIPT@ + (if readwrite {
            QUEUE_ACTION_SCRIPT@
        } else {
            Seq::empty()
        }) + "</script>\n"@ + PAGE_END@,
{
    let mut page = joined(PAGE_START, QUEUE_STATE);
    if readwrite {
        page.append(QUEUE_ACTIONS);
    } else {
        page.append(QUEUE_READONLY);
    }
    page.append("<script>\n");
    page.append(SHARED_SCRIPT);
    page.append(QUEUE_POLL_SCRIPT);
    let ghost so_far = page@;
    if readwrite {
        page.append(QUEUE_ACTION_SCRIPT);
    } else {
        assert(so_far + Seq::<char>::empty() =~= so_far);
    }
    page.append("</script>\n");
    page.append(PAGE_END);
    page
}

/// Who is signed in, and how to sign out.
pub open spec fn account(email: Seq<char>, has_auth: bool) -> Seq<char> {
    if has_auth {
        "<p>Signed in as "@ + crate::server::web::html(email)
            + "</p>\n<form method=\"post\" action=\"/auth/logout\"><button>Sign out</button></form>\n"@
    } else {
        Seq::empty()
    }
}

/// Who is signed in, and how to sign out.
fn account_part(email: &str, has_auth: bool) -> (r: String)
    ensures
        r@ == account(email@, has_auth),
{
    if has_auth {
        let shown = html_escape(email);
        joined3(
            "<p>Signed in as ",
            shown.as_str(),
            "</p>\n<form method=\"post\" action=\"/auth/logout\"><button>Sign out</button></form>\n",
        )
    } else {
        let none = String::new();
        assert(none@ =~= Seq::empty());
        none
    }
}

/// What a session is doing, in words.
pub open spec fn status_words(status: EffectiveSessionStatusView) -> Seq<char> {
    match status {
        EffectiveSessionStatusView::Active => "active"@,
        EffectiveSessionStatusView::Idle => "idle"@,
        EffectiveSessionStatusView::Ended => "ended"@,
        EffectiveSessionStatusView::Waiting { reason } => match reason {
            Some(reason) => "waiting: "@ + reason,
            None => "waiting"@,
        },
    }
}

/// What a session is doing, in words.
fn status_in_words(status: &EffectiveSessionStatus) -> (r: String)
    ensures
        r@ == status_words(status@),
{
    match status {
        EffectiveSessionStatus::Active => "active".to_string(),
        EffectiveSessionStatus::Idle => "idle".to_string(),
        EffectiveSessionStatus::Ended => "ended".to_string(),
        EffectiveSessionStatus::Waiting { reason } => match reason {
            Some(reason) => joined("waiting: ", reason.as_str()),
            None => "waiting".to_string(),
        },
    }
}

/// The row of a session: its name, its project and what it is doing.
pub open spec fn session_row(session: SessionView) -> Seq<char> {
    let name = match session.display_name {
        Some(name) => name@,
        None => session.session_id@,
    };
    "<tr><td>"@ + crate::server::web::html(name) + "</td><td>"@ + crate::server::web::html(
        session.project@,
    ) + "</td><td>"@ + crate::server::web::html(status_words(session.status@)) + "</td></tr>\n"@
}

/// The rows of sessions.
pub open spec fn session_rows(sessions: Seq<SessionView>) -> Seq<char>
    decreases sessions.len(),
{
    if sessions.len() == 0 {
        Seq::empty()
    } else {
        session_rows(sessions.drop_last()) + session_row(sessions.last())
    }
}

/// Appends the row of a session.
fn push_session_row(page: &mut String, session: &SessionView)
    ensures
        final(page)@ == old(page)@ + session_row(*session),
{
    let name = match &session.display_name {
        Some(name) => html_escape(name.as_str()),
        None => html_escape(session.session_id.as_str()),
    };
    let project = html_escape(session.project.as_str());
    let words = status_in_words(&session.status);
    let status = html_escape(words.as_str());
    page.append("<tr><td>");
    page.append(name.as_str());
    page.append("</td><td>");
    page.append(project.as_str());
    page.append("</td><td>");
    page.append(status.as_str());
    page.append("</td></tr>\n");
    assert(page@ =~= old(page)@ + session_row(*session));
}

/// A button that calls a function of the page's script for an approval.
pub open spec fn button(function: Seq<char>, id: u128, label: Seq<char>) -> Seq<char> {
    "<button onclick=\""@ + function + "('"@ + crate::ids::uuid_text(id) + "')\">"@ + label
        + "</button>"@
}

/// The buttons of an approval: none where nothing can be decided; one for a
/// decision with a grant only for the shell.
pub open spec fn row_buttons(approval: ApprovalView, readwrite: bool) -> Seq<char> {
    if readwrite {
        button("approveRow"@, approval.id, "Approve"@) + button("denyRow"@, approval.id, "Deny"@)
            + (if approval.tool is Bash {
            button("showTimedApproval"@, approval.id, "Timed approve"@)
        } else {
            Seq::empty()
        })
    } else {
        Seq::empty()
    }
}

/// The row of an approval: its tool, what it is called with, its project and
/// what can be done.
pub open spec fn approval_row(approval: ApprovalView, readwrite: bool) -> Seq<char> {
    "<tr data-approval=\""@ + crate::ids::uuid_text(approval.id) + "\" data-tool=\""@
        + crate::server::web::html(approval.tool.name()) + "\"><td>"@ + crate::server::web::html(
        approval.tool.name(),
    ) + "</td><td>"@ + crate::server::web::html(crate::json::json_text(approval.tool_input))
        + "</td><td>"@ + crate::server::web::html(approval.project) + "</td><td>"@ + row_buttons(
        approval,
        readwrite,
    ) + "</td></tr>\n"@
}

/// The rows of approvals.
pub open spec fn approval_rows(approvals: Seq<ApprovalView>, readwrite: bool) -> Seq<char>
    decreases approvals.len(),
{
    if approvals.len() == 0 {
        Seq::empty()
    } else {
        approval_rows(approvals.drop_last(), readwrite) + approval_row(
            approvals.last(),
            readwrite,
        )
    }
}

/// Appends a button.
fn push_button(page: &mut String, function: &str, id: u128, label: &str)
    ensures
        final(page)@ == old(page)@ + button(function@, id, label@),
{
    let id_text = format_uuid(id);
    page.append("<button onclick=\"");
    page.append(function);
    page.append("('");
    page.append(id_text.as_str());
    page.append("')\">");
    page.append(label);
    page.append("</button>");
    assert(page@ =~= old(page)@ + button(function@, id, label@));
}

/// Appends the row of an approval.
fn push_approval_row(page: &mut String, approval: &Approval, readwrite: bool)
    ensures
        final(page)@ == old(page)@ + approval_row(approval@, readwrite),
{
    let id_text = format_uuid(approval.id);
    let tool = html_escape(approval.tool.as_str());
    let input_text = approval.tool_input.to_text();
    let input = html_escape(input_text.as_str());
    let project = html_escape(approval.project.as_str());
    page.append("<tr data-approval=\"");
    page.append(id_text.as_str());
    page.append("\" data-tool=\"");
    page.append(tool.as_str());
    page.append("\"><td>");
    page.append(tool.as_str());
    page.append("</td><td>");
    page.append(input.as_str());
    page.append("</td><td>");
    page.append(project.as_str());
    page.append("</td><td>");
    let ghost start = page@;
    if readwrite {
        push_button(page, "approveRow", approval.id, "Approve");
        push_button(page, "denyRow", approval.id, "Deny");
        if approval.tool.is_bash() {
            push_button(page, "showTimedApproval", approval.id, "Timed approve");
        }
    }
    assert(page@ =~= start + row_buttons(approval@, readwrite));
    page.append("</td></tr>\n");
    assert(page@ =~= old(page)@ + approval_row(approval@, readwrite));
}

/// The dashboard.
pub open spec fn dashboard_page(
    email: Seq<char>,
    sessions: Seq<SessionView>,
    approvals: Seq<ApprovalView>,
    readwrite: bool,
    has_auth: bool,
) -> Seq<char> {
    PAGE_START@ + account(email, has_auth) + "<h1>Approvals</h1>\n<table id=\"approvals\">\n"@
        + approval_rows(approvals, readwrite)
        + "</table>\n<h1>Sessions</h1>\n<table id=\"sessions\">\n"@ + session_rows(sessions)
        + "</table>\n"@ + (if readwrite {
        "<script>\n"@ + SHARED_SCRIPT@ + DASHBOARD_SCRIPT@ + "</script>\n"@
    } else {
        Seq::empty()
    }) + PAGE_END@
}

/// The dashboard: what is pending, and what the sessions are doing.
pub fn dashboard(
    email: &str,
    sessions: &Vec<SessionView>,
    approvals: &Vec<Approval>,
    readwrite: bool,
    has_auth: bool,
) -> (r: String)
    ensures
        r@ == dashboard_page(
            email@,
            sessions@,
            crate::protocol::approval::approval_views(approvals@),
            readwrite,
            has_auth,
        ),
{
    let ghost views = crate::protocol::approval::approval_views(approvals@);
    let account_text = account_part(email, has_auth);
    let mut page = joined3(
        PAGE_START,
        account_text.as_str(),
        "<h1>Approvals</h1>\n<table id=\"approvals\">\n",
    );
    let ghost start = page@;
    let mut i: usize = 0;
    assert(page@ =~= start + approval_rows(views.take(0), readwrite));
    while i < approvals.len()
        invariant
            i <= approvals@.len(),
            views == crate::protocol::approval::approval_views(approvals@),
            page@ == start + approval_rows(views.take(i as int), readwrite),
        decreases approvals@.len() - i,
    {
        assert(views.take(i + 1).drop_last() =~= views.take(i as int));
        push_approval_row(&mut page, &approvals[i], readwrite);
        i += 1;
        assert(page@ =~= start + approval_rows(views.take(i as int), readwrite));
    }
    assert(views.take(i as int) =~= views);
    page.append("</table>\n<h1>Sessions</h1>\n<table id=\"sessions\">\n");
    let ghost middle = page@;
    let mut j: usize = 0;
    assert(page@ =~= middle + session_rows(sessions@.take(0)));
    while j < sessions.len()
        invariant
            j <= sessions@.len(),
            page@ == middle + session_rows(sessions@.take(j as int)),
        decreases sessions@.len() - j,
    {
        assert(sessions@.take(j + 1).drop_last() =~= sessions@.take(j as int));
        push_session_row(&mut page, &sessions[j]);
        j += 1;
        assert(page@ =~= middle + session_rows(sessions@.take(j as int)));
    }
    assert(sessions@.take(j as int) =~= sessions@);
    page.append("</table>\n");
    let ghost before_script = page@;
    if readwrite {
        page.append("<script>\n");
        page.append(SHARED_SCRIPT);
        page.append(DASHBOARD_SCRIPT);
        page.append("</script>\n");
        assert(page@ =~= before_script + ("<script>\n"@ + SHARED_SCRIPT@ + DASHBOARD_SCRIPT@
            + "</script>\n"@));
    } else {
        assert(page@ =~= before_script + Seq::<char>::empty());
    }
    page.append(PAGE_END);
    page
}

/// The buttons on the page of an approval.
pub open spec fn detail_buttons(approval: ApprovalView, readwrite: bool) -> Seq<char> {
    if readwrite && approval.pending() {
        "<button onclick=\"doApprove()\">Approve</button>\n<button onclick=\"doDeny()\">Deny</button>\n"@
            + (if approval.tool is Bash {
            "<button onclick=\"showTimedApproval()\">Timed approve</button>\n"@
        } else {
            Seq::empty()
        })
    } else {
        Seq::empty()
    }
}

/// What the operator may want to look at.
pub open spec fn extra_part(approval: ApprovalView) -> Seq<char> {
    match approval.context.extra {
        Some(extra) => "<pre>"@ + crate::server::web::html(extra.text()) + "</pre>\n"@,
        None => Seq::empty(),
    }
}

/// The page of an approval. `approval_json` is the approval as a JSON text.
pub open spec fn detail_page(
    email: Seq<char>,
    approval: ApprovalView,
    approval_json: Seq<char>,
    readwrite: bool,
    has_auth: bool,
) -> Seq<char> {
    PAGE_START@ + account(email, has_auth) + "<h1>"@ + crate::server::web::html(
        approval.tool.name(),
    ) + "</h1>\n<p>"@ + crate::server::web::html(approval.project) + "</p>\n<pre>"@
        + crate::server::web::html(
        crate::json::pretty_json(approval.tool_input),
    ) + "</pre>\n"@ + extra_part(approval) + detail_buttons(approval, readwrite)
        + "<script type=\"application/json\" id=\"approval-data\">"@
        + crate::server::web::script_text(approval_json) + "</script>\n<script>\n"@ + (
    if readwrite {
        SHARED_SCRIPT@ + DETAIL_SCRIPT@
    } else {
        Seq::empty()
    }) + "</script>\n"@ + PAGE_END@
}

/// The page of an approval.
fn render_detail(
    email: &str,
    approval: &Approval,
    approval_json: &str,
    readwrite: bool,
    has_auth: bool,
) -> (r: String)
    ensures
        r@ == detail_page(email@, approval@, approval_json@, readwrite, has_auth),
{
    let account_text = account_part(email, has_auth);
    let tool = html_escape(approval.tool.as_str());
    let project = html_escape(approval.project.as_str());
    let input_text = approval.tool_input.to_pretty_text();
    let input = html_escape(input_text.as_str());
    let data = json_for_script(approval_json);
    let mut page = joined3(PAGE_START, account_text.as_str(), "<h1>");
    page.append(tool.as_str());
    page.append("</h1>\n<p>");
    page.append(project.as_str());
    page.append("</p>\n<pre>");
    page.append(input.as_str());
    page.append("</pre>\n");
    let ghost before_extra = page@;
    match &approval.context.extra {
        Some(extra) => {
            let extra_text = extra.to_text();
            let shown = html_escape(extra_text.as_str());
            page.append("<pre>");
            page.append(shown.as_str());
            page.append("</pre>\n");
        },
        None => {},
    }
    assert(page@ =~= before_extra + extra_part(approval@));
    let ghost before_buttons = page@;
    if readwrite && !approval.status.is_resolved() {
        page.append(
            "<button onclick=\"doApprove()\">Approve</button>\n<button onclick=\"doDeny()\">Deny</button>\n",
        );
        if approval.tool.is_bash() {
            page.append("<button onclick=\"showTimedApproval()\">Timed approve</button>\n");
        }
    }
    assert(page@ =~= before_buttons + detail_buttons(approval@, readwrite));
    page.append("<script type=\"application/json\" id=\"approval-data\">");
    page.append(data.as_str());
    page.append("</script>\n<script>\n");
    let ghost before_script = page@;
    if readwrite {
        page.append(SHARED_SCRIPT);
        page.append(DETAIL_SCRIPT);
        assert(page@ =~= before_script + (SHARED_SCRIPT@ + DETAIL_SCRIPT@));
    } else {
        assert(page@ =~= before_script + Seq::<char>::empty());
    }
    page.append("</script>\n");
    page.append(PAGE_END);
    page
}

/// The page of an approval, where there is such an approval; it comes with itself
/// as a JSON text.
pub fn approval_detail(
    email: &str,
    found: Option<(Approval, String)>,
    readwrite: bool,
    has_auth: bool,
) -> (r: WebAnswer)
    ensures
        match found {
            None => crate::server::web::is_line(r, NOT_FOUND, "Approval not found"@),
            Some((approval, approval_json)) => match r {
                WebAnswer::Page(page) => page@ == detail_page(
                    email@,
                    approval@,
                    approval_json@,
                    readwrite,
                    has_auth,
                ),
                _ => false,
            },
        },
{
    match found {
        None => WebAnswer::Line(NOT_FOUND, "Approval not found"),
        Some((approval, approval_json)) => WebAnswer::Page(
            render_detail(email, &approval, approval_json.as_str(), readwrite, has_auth),
        ),
    }
}

/// The links to the providers that one can sign in with.
pub open spec fn provider_links(providers: Seq<Seq<char>>) -> Seq<char>
    decreases providers.len(),
{
    if providers.len() == 0 {
        Seq::empty()
    } else {
        provider_links(providers.drop_last()) + "<p><a href=\"/auth/start/"@
            + crate::server::web::html(providers.last()) + "\">"@ + crate::server::web::html(
            providers.last(),
        ) + "</a></p>\n"@
    }
}

/// The form to sign in with a name and a password.
pub const LOGIN_FORM: &'static str = "<form method=\"post\" action=\"/auth/login/basic\">
<input name=\"username\" autocomplete=\"username\">
<input name=\"password\" type=\"password\" autocomplete=\"current-password\">
<button>Sign in</button>
</form>
";

/// The page on which one signs in.
pub fn login_page(providers: &Vec<String>, has_basic_auth: bool) -> (r: String)
    ensures
        r@ == PAGE_START@ + "<h1>Sign in</h1>\n"@ + provider_links(crate::text::texts(providers@))
            + (if has_basic_auth {
            LOGIN_FORM@
        } else {
            Seq::empty()
        }) + PAGE_END@,
{
    let ghost all = crate::text::texts(providers@);
    let mut page = joined(PAGE_START, "<h1>Sign in</h1>\n");
    let ghost start = page@;
    let mut i: usize = 0;
    assert(page@ =~= start + provider_links(all.take(0)));
    while i < providers.len()
        invariant
            i <= providers@.len(),
            all == crate::text::texts(providers@),
            page@ == start + provider_links(all.take(i as int)),
        decreases providers@.len() - i,
    {
        assert(all.take(i + 1).drop_last() =~= all.take(i as int));
        let name = html_escape(providers[i].as_str());
        page.append("<p><a href=\"/auth/start/");
        page.append(name.as_str());
        page.append("\">");
        page.append(name.as_str());
        page.append("</a></p>\n");
        i += 1;
        assert(page@ =~= start + provider_links(all.take(i as int)));
    }
    assert(all.take(i as int) =~= all);
    let ghost before_form = page@;
    if has_basic_auth {
        page.append(LOGIN_FORM);
    } else {
        assert(page@ =~= before_form + Seq::<char>::empty());
    }
    page.append(PAGE_END);
    page
}

/// Whether `part` stands somewhere in `page`.
pub open spec fn stands_in(part: Seq<char>, page: Seq<char>) -> bool {
    exists|before: Seq<char>, after: Seq<char>| page == #[trigger] (before + part + after)
}

/// What stands in a piece of a page stands in the page.
proof fn piece_stands_in_page(
    part: Seq<char>,
    before: Seq<char>,
    piece: Seq<char>,
    after: Seq<char>,
    page: Seq<char>,
)
    requires
        stands_in(part, piece),
        page == before + piece + after,
    ensures
        stands_in(part, page),
{
    let (a, b) = choose|a: Seq<char>, b: Seq<char>| piece == #[trigger] (a + part + b);
    assert(page =~= (before + a) + part + (b + after));
}

/// A text stands in itself.
proof fn stands_in_itself(part: Seq<char>)
    ensures
        stands_in(part, part),
{
    let none = Seq::<char>::empty();
    assert(part =~= none + part + none);
}

/// The row of each approval stands among the rows.
proof fn row_is_among_approvals(approvals: Seq<ApprovalView>, readwrite: bool, i: int)
    requires
        0 <= i < approvals.len(),
    ensures
        stands_in(approval_row(approvals[i], readwrite), approval_rows(approvals, readwrite)),
    decreases approvals.len(),
{
    let fewer = approvals.drop_last();
    let rows = approval_rows(approvals, readwrite);
    let own = approval_row(approvals[i], readwrite);
    let none = Seq::<char>::empty();
    if i == fewer.len() {
        stands_in_itself(own);
        assert(rows =~= approval_rows(fewer, readwrite) + own + none);
        piece_stands_in_page(own, approval_rows(fewer, readwrite), own, none, rows);
    } else {
        assert(fewer[i] == approvals[i]);
        row_is_among_approvals(fewer, readwrite, i);
        let last = approval_row(approvals.last(), readwrite);
        assert(rows =~= none + approval_rows(fewer, readwrite) + last);
        piece_stands_in_page(own, none, approval_rows(fewer, readwrite), last, rows);
    }
}

/// The row of each session stands among the rows.
proof fn row_is_among_sessions(sessions: Seq<SessionView>, i: int)
    requires
        0 <= i < sessions.len(),
    ensures
        stands_in(session_row(sessions[i]), session_rows(sessions)),
    decreases sessions.len(),
{
    let fewer = sessions.drop_last();
    let rows = session_rows(sessions);
    let own = session_row(sessions[i]);
    let none = Seq::<char>::empty();
    if i == fewer.len() {
        stands_in_itself(own);
        assert(rows =~= session_rows(fewer) + own + none);
        piece_stands_in_page(own, session_rows(fewer), own, none, rows);
    } else {
        assert(fewer[i] == sessions[i]);
        row_is_among_sessions(fewer, i);
        let last = session_row(sessions.last());
        assert(rows =~= none + session_rows(fewer) + last);
        piece_stands_in_page(own, none, session_rows(fewer), last, rows);
    }
}

/// The rows of approvals stand in the dashboard.
proof fn approvals_stand_in_dashboard(
    email: Seq<char>,
    sessions: Seq<SessionView>,
    approvals: Seq<ApprovalView>,
    readwrite: bool,
    has_auth: bool,
    part: Seq<char>,
)
    requires
        stands_in(part, approval_rows(approvals, readwrite)),
    ensures
        stands_in(part, dashboard_page(email, sessions, approvals, readwrite, has_auth)),
{
    let page = dashboard_page(email, sessions, approvals, readwrite, has_auth);
    let rows = approval_rows(approvals, readwrite);
    let start = PAGE_START@ + account(email, has_auth)
        + "<h1>Approvals</h1>\n<table id=\"approvals\">\n"@;
    let script = if readwrite {
        "<script>\n"@ + SHARED_SCRIPT@ + DASHBOARD_SCRIPT@ + "</script>\n"@
    } else {
        Seq::empty()
    };
    let end = "</table>\n<h1>Sessions</h1>\n<table id=\"sessions\">\n"@ + session_rows(sessions)
        + "</table>\n"@ + script + PAGE_END@;
    five_together(
        start + rows,
        "</table>\n<h1>Sessions</h1>\n<table id=\"sessions\">\n"@,
        session_rows(sessions),
        "</table>\n"@,
        script,
        PAGE_END@,
    );
    assert(page == start + rows + end);
    piece_stands_in_page(part, start, rows, end, page);
}

/// The rows of sessions stand in the dashboard.
proof fn sessions_stand_in_dashboard(
    email: Seq<char>,
    sessions: Seq<SessionView>,
    approvals: Seq<ApprovalView>,
    readwrite: bool,
    has_auth: bool,
    part: Seq<char>,
)
    requires
        stands_in(part, session_rows(sessions)),
    ensures
        stands_in(part, dashboard_page(email, sessions, approvals, readwrite, has_auth)),
{
    let page = dashboard_page(email, sessions, approvals, readwrite, has_auth);
    let start = PAGE_START@ + account(email, has_auth)
        + "<h1>Approvals</h1>\n<table id=\"approvals\">\n"@ + approval_rows(approvals, readwrite)
        + "</table>\n<h1>Sessions</h1>\n<table id=\"sessions\">\n"@;
    let script = if readwrite {
        "<script>\n"@ + SHARED_SCRIPT@ + DASHBOARD_SCRIPT@ + "</script>\n"@
    } else {
        Seq::empty()
    };
    let end = "</table>\n"@ + script + PAGE_END@;
    three_together(start + session_rows(sessions), "</table>\n"@, script, PAGE_END@);
    assert(page == start + session_rows(sessions) + end);
    piece_stands_in_page(part, start, session_rows(sessions), end, page);
}

/// The dashboard shows every approval that it is given: its tool, what the tool is called
/// with, and its project, under its identifier. Where decisions can be taken there is a
/// button to approve it and one to deny it, and for the shell, and nothing else, one to
/// approve it for some time; where none can, there is no button.
pub proof fn dashboard_shows_every_approval(
    email: &str,
    sessions: &Vec<SessionView>,
    approvals: &Vec<Approval>,
    readwrite: bool,
    has_auth: bool,
    r: String,
    i: int,
)
    requires
        call_ensures(dashboard, (email, sessions, approvals, readwrite, has_auth), r),
        0 <= i < approvals@.len(),
    ensures
        ({
            let approval = approvals@[i];
            let id = crate::ids::uuid_text(approval.id);
            let tool = crate::server::web::html(approval.tool@.name());
            let input = crate::server::web::html(crate::json::json_text(approval.tool_input@));
            let project = crate::server::web::html(approval.project@);
            let approve = "<button onclick=\""@ + "approveRow"@ + "('"@ + id + "')\">"@ + "Approve"@
                + "</button>"@;
            let deny = "<button onclick=\""@ + "denyRow"@ + "('"@ + id + "')\">"@ + "Deny"@
                + "</button>"@;
            let timed = "<button onclick=\""@ + "showTimedApproval"@ + "('"@ + id + "')\">"@
                + "Timed approve"@ + "</button>"@;
            let shown = "<tr data-approval=\""@ + id + "\" data-tool=\""@ + tool + "\"><td>"@ + tool
                + "</td><td>"@ + input + "</td><td>"@ + project + "</td><td>"@;
            &&& !readwrite ==> stands_in(shown + "</td></tr>\n"@, r@)
            &&& readwrite && approval.tool is Bash ==> stands_in(
                shown + (approve + deny + timed) + "</td></tr>\n"@,
                r@,
            )
            &&& readwrite && !(approval.tool is Bash) ==> stands_in(
                shown + (approve + deny) + "</td></tr>\n"@,
                r@,
            )
        }),
{
    let approval = approvals@[i];
    let views = crate::protocol::approval::approval_views(approvals@);
    assert(views[i] == approval@);
    row_is_among_approvals(views, readwrite, i);
    let own = approval_row(approval@, readwrite);
    approvals_stand_in_dashboard(email@, sessions@, views, readwrite, has_auth, own);
    let none = Seq::<char>::empty();
    let approve = button("approveRow"@, approval.id, "Approve"@);
    let deny = button("denyRow"@, approval.id, "Deny"@);
    assert(approve + deny + none =~= approve + deny);
    let id = crate::ids::uuid_text(approval.id);
    let tool = crate::server::web::html(approval.tool@.name());
    let input = crate::server::web::html(crate::json::json_text(approval.tool_input@));
    let project = crate::server::web::html(approval.project@);
    let shown = "<tr data-approval=\""@ + id + "\" data-tool=\""@ + tool + "\"><td>"@ + tool
        + "</td><td>"@ + input + "</td><td>"@ + project + "</td><td>"@;
    assert(shown + none =~= shown);
    assert(own == shown + row_buttons(approval@, readwrite) + "</td></tr>\n"@);
}

/// The dashboard shows every session that it is given: by its name, or else by its
/// identifier, with its project and what it is doing.
pub proof fn dashboard_shows_every_session(
    email: &str,
    sessions: &Vec<SessionView>,
    approvals: &Vec<Approval>,
    readwrite: bool,
    has_auth: bool,
    r: String,
    i: int,
)
    requires
        call_ensures(dashboard, (email, sessions, approvals, readwrite, has_auth), r),
        0 <= i < sessions@.len(),
    ensures
        ({
            let session = sessions@[i];
            let name = if session.display_name is Some {
                session.display_name->0@
            } else {
                session.session_id@
            };
            let doing = match session.status@ {
                EffectiveSessionStatusView::Active => "active"@,
                EffectiveSessionStatusView::Idle => "idle"@,
                EffectiveSessionStatusView::Ended => "ended"@,
                EffectiveSessionStatusView::Waiting { reason } => if reason is Some {
                    "waiting: "@ + reason->0
                } else {
                    "waiting"@
                },
            };
            stands_in(
                "<tr><td>"@ + crate::server::web::html(name) + "</td><td>"@
                    + crate::server::web::html(session.project@) + "</td><td>"@
                    + crate::server::web::html(doing) + "</td></tr>\n"@,
                r@,
            )
        }),
{
    row_is_among_sessions(sessions@, i);
    let views = crate::protocol::approval::approval_views(approvals@);
    sessions_stand_in_dashboard(
        email@,
        sessions@,
        views,
        readwrite,
        has_auth,
        session_row(sessions@[i]),
    );
}

/// The page of an approval that is pending, where decisions can be taken, is its page
/// once it is decided with buttons put in: one to approve and one to deny, and for the
/// shell, and nothing else, one to approve for some time. Where no decision can be taken,
/// the page is the same whatever became of the approval.
pub proof fn detail_offers_decisions_while_pending(
    email: &str,
    pending: Approval,
    decided: Approval,
    json: String,
    readwrite: bool,
    has_auth: bool,
    offered: WebAnswer,
    settled: WebAnswer,
)
    requires
        pending@.status is Pending,
        !(decided@.status is Pending),
        decided@ == pending@.with_status(decided@.status),
        call_ensures(approval_detail, (email, Some((pending, json)), readwrite, has_auth), offered),
        call_ensures(approval_detail, (email, Some((decided, json)), readwrite, has_auth), settled),
    ensures
        offered is Page,
        settled is Page,
        !readwrite ==> offered->Page_0@ == settled->Page_0@,
        readwrite ==> exists|before: Seq<char>, after: Seq<char>| {
            let decide = "<button onclick=\"doApprove()\">Approve</button>\n<button onclick=\"doDeny()\">Deny</button>\n"@;
            let timed = "<button onclick=\"showTimedApproval()\">Timed approve</button>\n"@;
            &&& settled->Page_0@ == #[trigger] (before + after)
            &&& offered->Page_0@ == before + (if pending.tool is Bash {
                decide + timed
            } else {
                decide
            }) + after
        },
{
    let before = PAGE_START@ + account(email@, has_auth) + "<h1>"@ + crate::server::web::html(
        pending@.tool.name(),
    ) + "</h1>\n<p>"@ + crate::server::web::html(pending@.project) + "</p>\n<pre>"@
        + crate::server::web::html(crate::json::pretty_json(pending@.tool_input)) + "</pre>\n"@
        + extra_part(pending@);
    let after = "<script type=\"application/json\" id=\"approval-data\">"@
        + crate::server::web::script_text(json@) + "</script>\n<script>\n"@ + (if readwrite {
        SHARED_SCRIPT@ + DETAIL_SCRIPT@
    } else {
        Seq::empty()
    }) + "</script>\n"@ + PAGE_END@;
    assert(extra_part(decided@) == extra_part(pending@));
    let none = Seq::<char>::empty();
    let script = if readwrite {
        SHARED_SCRIPT@ + DETAIL_SCRIPT@
    } else {
        Seq::empty()
    };
    let data = "<script type=\"application/json\" id=\"approval-data\">"@;
    let text = crate::server::web::script_text(json@);
    let buttons = detail_buttons(pending@, readwrite);
    assert(before + none =~= before);
    six_together(before, data, text, "</script>\n<script>\n"@, script, "</script>\n"@, PAGE_END@);
    six_together(
        before + buttons,
        data,
        text,
        "</script>\n<script>\n"@,
        script,
        "</script>\n"@,
        PAGE_END@,
    );
    assert(settled->Page_0@ == before + after);
    assert(offered->Page_0@ == before + buttons + after);
    let decide = "<button onclick=\"doApprove()\">Approve</button>\n<button onclick=\"doDeny()\">Deny</button>\n"@;
    assert(decide + none =~= decide);
}

/// Two texts behind another are one text behind it.
proof fn two_together(start: Seq<char>, a: Seq<char>, b: Seq<char>)
    ensures
        start + a + b == start + (a + b),
{
    assert(start + a + b =~= start + (a + b));
}

/// Five texts behind another are one text behind it.
proof fn five_together(
    start: Seq<char>,
    a: Seq<char>,
    b: Seq<char>,
    c: Seq<char>,
    d: Seq<char>,
    e: Seq<char>,
)
    ensures
        start + a + b + c + d + e == start + (a + b + c + d + e),
{
    three_together(start, a, b, c);
    three_together(start, a + b + c, d, e);
}

/// Six texts behind another are one text behind it.
proof fn six_together(
    start: Seq<char>,
    a: Seq<char>,
    b: Seq<char>,
    c: Seq<char>,
    d: Seq<char>,
    e: Seq<char>,
    f: Seq<char>,
)
    ensures
        start + a + b + c + d + e + f == start + (a + b + c + d + e + f),
{
    three_together(start, a, b, c);
    three_together(start, a + b + c, d, e);
    two_together(start, a + b + c + d + e, f);
}

/// The parts of the page of an approval.
proof fn parts_of_detail(
    email: Seq<char>,
    approval: ApprovalView,
    json: Seq<char>,
    readwrite: bool,
    has_auth: bool,
)
    ensures
        ({
            let page = detail_page(email, approval, json, readwrite, has_auth);
            let shown = "<h1>"@ + crate::server::web::html(approval.tool.name()) + "</h1>\n<p>"@
                + crate::server::web::html(approval.project) + "</p>\n<pre>"@
                + crate::server::web::html(crate::json::pretty_json(approval.tool_input))
                + "</pre>\n"@;
            let data = "<script type=\"application/json\" id=\"approval-data\">"@
                + crate::server::web::script_text(json) + "</script>\n<script>\n"@;
            stands_in(shown, page) && stands_in(extra_part(approval), page) && stands_in(
                data,
                page,
            )
        }),
{
    let page = detail_page(email, approval, json, readwrite, has_auth);
    let head = PAGE_START@ + account(email, has_auth);
    let shown = "<h1>"@ + crate::server::web::html(approval.tool.name()) + "</h1>\n<p>"@
        + crate::server::web::html(approval.project) + "</p>\n<pre>"@ + crate::server::web::html(
        crate::json::pretty_json(approval.tool_input),
    ) + "</pre>\n"@;
    let extra = extra_part(approval);
    let buttons = detail_buttons(approval, readwrite);
    let data = "<script type=\"application/json\" id=\"approval-data\">"@
        + crate::server::web::script_text(json) + "</script>\n<script>\n"@;
    let tail = (if readwrite {
        SHARED_SCRIPT@ + DETAIL_SCRIPT@
    } else {
        Seq::empty()
    }) + "</script>\n"@ + PAGE_END@;
    let tool = crate::server::web::html(approval.tool.name());
    let project = crate::server::web::html(approval.project);
    let input = crate::server::web::html(crate::json::pretty_json(approval.tool_input));
    let script = if readwrite {
        SHARED_SCRIPT@ + DETAIL_SCRIPT@
    } else {
        Seq::empty()
    };
    seven_together(head, "<h1>"@, tool, "</h1>\n<p>"@, project, "</p>\n<pre>"@, input, "</pre>\n"@);
    let top = head + shown + extra + buttons;
    three_together(
        top,
        "<script type=\"application/json\" id=\"approval-data\">"@,
        crate::server::web::script_text(json),
        "</script>\n<script>\n"@,
    );
    three_together(top + data, script, "</script>\n"@, PAGE_END@);
    assert(page == head + shown + extra + buttons + data + tail);
    pieces_stand_in_page(head, shown, extra, buttons, data, tail, page);
}

/// Seven texts behind another are one text behind it.
proof fn seven_together(
    start: Seq<char>,
    a: Seq<char>,
    b: Seq<char>,
    c: Seq<char>,
    d: Seq<char>,
    e: Seq<char>,
    f: Seq<char>,
    g: Seq<char>,
)
    ensures
        start + a + b + c + d + e + f + g == start + (a + b + c + d + e + f + g),
{
    three_together(start, a, b, c);
    three_together(start, a + b + c, d, e);
    three_together(start, a + b + c + d + e, f, g);
}

/// Three texts behind another are one text behind it.
proof fn three_together(start: Seq<char>, a: Seq<char>, b: Seq<char>, c: Seq<char>)
    ensures
        start + a + b + c == start + (a + b + c),
{
    assert(start + a + b + c =~= start + (a + b + c));
}

/// Pieces that a page is put together of stand in it.
proof fn pieces_stand_in_page(
    a: Seq<char>,
    b: Seq<char>,
    c: Seq<char>,
    d: Seq<char>,
    e: Seq<char>,
    f: Seq<char>,
    page: Seq<char>,
)
    requires
        page == a + b + c + d + e + f,
    ensures
        stands_in(b, page),
        stands_in(c, page),
        stands_in(e, page),
{
    assert(page =~= a + b + (c + d + e + f));
    assert(page =~= (a + b) + c + (d + e + f));
    assert(page =~= (a + b + c + d) + e + f);
}

/// The page of an approval shows what the approval is about, letter by letter, and comes
/// with it as data; there is no page for an approval that does not exist.
pub proof fn detail_shows_the_approval(
    email: &str,
    approval: Approval,
    json: String,
    readwrite: bool,
    has_auth: bool,
    found: WebAnswer,
    missing: WebAnswer,
)
    requires
        call_ensures(approval_detail, (email, Some((approval, json)), readwrite, has_auth), found),
        call_ensures(approval_detail, (email, None, readwrite, has_auth), missing),
    ensures
        missing matches WebAnswer::Line(code, text) && code == 404 && text@
            == "Approval not found"@,
        found is Page,
        stands_in(
            "<h1>"@ + crate::server::web::html(approval.tool@.name()) + "</h1>\n<p>"@
                + crate::server::web::html(approval.project@) + "</p>\n<pre>"@
                + crate::server::web::html(crate::json::pretty_json(approval.tool_input@))
                + "</pre>\n"@,
            found->Page_0@,
        ),
        stands_in(
            "<script type=\"application/json\" id=\"approval-data\">"@
                + crate::server::web::script_text(json@) + "</script>\n<script>\n"@,
            found->Page_0@,
        ),
        approval.context.extra matches Some(extra) ==> stands_in(
            "<pre>"@ + crate::server::web::html(
                match extra {
                    ExtraContext::Diff { diff } => diff@,
                    ExtraContext::DippyReason { dippy_reason } => dippy_reason@,
                },
            ) + "</pre>\n"@,
            found->Page_0@,
        ),
{
    parts_of_detail(email@, approval@, json@, readwrite, has_auth);
}

/// The queue offers decisions exactly where they can be taken: its page there has the
/// actions and their script; elsewhere it says that nothing can be decided.
pub proof fn queue_offers_decisions_where_they_count(writable: String, readonly: String)
    requires
        call_ensures(approval_queue, (true,), writable),
        call_ensures(approval_queue, (false,), readonly),
    ensures
        exists|before: Seq<char>, middle: Seq<char>, after: Seq<char>| {
            &&& writable@ == #[trigger] (before + QUEUE_ACTIONS@ + middle + QUEUE_ACTION_SCRIPT@
                + after)
            &&& readonly@ == before + QUEUE_READONLY@ + middle + after
        },
{
    let before = PAGE_START@ + QUEUE_STATE@;
    let middle = "<script>\n"@ + SHARED_SCRIPT@ + QUEUE_POLL_SCRIPT@;
    let after = "</script>\n"@ + PAGE_END@;
    let none = Seq::<char>::empty();
    let acting = before + QUEUE_ACTIONS@;
    let watching = before + QUEUE_READONLY@;
    three_together(acting, "<script>\n"@, SHARED_SCRIPT@, QUEUE_POLL_SCRIPT@);
    three_together(watching, "<script>\n"@, SHARED_SCRIPT@, QUEUE_POLL_SCRIPT@);
    assert(watching + middle + none =~= watching + middle);
    two_together(acting + middle + QUEUE_ACTION_SCRIPT@, "</script>\n"@, PAGE_END@);
    two_together(watching + middle, "</script>\n"@, PAGE_END@);
    assert(writable@ == before + QUEUE_ACTIONS@ + middle + QUEUE_ACTION_SCRIPT@ + after);
    assert(readonly@ == before + QUEUE_READONLY@ + middle + after);
}

/// The link of each provider stands among the links.
proof fn link_is_among_providers(providers: Seq<Seq<char>>, i: int)
    requires
        0 <= i < providers.len(),
    ensures
        stands_in(
            "<p><a href=\"/auth/start/"@ + crate::server::web::html(providers[i]) + "\">"@
                + crate::server::web::html(providers[i]) + "</a></p>\n"@,
            provider_links(providers),
        ),
    decreases providers.len(),
{
    let fewer = providers.drop_last();
    let links = provider_links(providers);
    let none = Seq::<char>::empty();
    let own = "<p><a href=\"/auth/start/"@ + crate::server::web::html(providers[i]) + "\">"@
        + crate::server::web::html(providers[i]) + "</a></p>\n"@;
    let name = crate::server::web::html(providers.last());
    let last = "<p><a href=\"/auth/start/"@ + name + "\">"@ + name + "</a></p>\n"@;
    five_together(
        provider_links(fewer),
        "<p><a href=\"/auth/start/"@,
        name,
        "\">"@,
        name,
        "</a></p>\n"@,
    );
    assert(links == provider_links(fewer) + last);
    if i == fewer.len() {
        stands_in_itself(own);
        assert(links + none =~= links);
        piece_stands_in_page(own, provider_links(fewer), own, none, links);
    } else {
        assert(fewer[i] == providers[i]);
        link_is_among_providers(fewer, i);
        assert(none + provider_links(fewer) =~= provider_links(fewer));
        piece_stands_in_page(own, none, provider_links(fewer), last, links);
    }
}

/// One can sign in with every provider that there is, and with a name and a password
/// exactly where that is set up: the page without the form is the one with it, but for
/// the form.
pub proof fn every_way_to_sign_in_is_offered(
    providers: &Vec<String>,
    with_form: String,
    without_form: String,
    i: int,
)
    requires
        call_ensures(login_page, (providers, true), with_form),
        call_ensures(login_page, (providers, false), without_form),
        0 <= i < providers@.len(),
    ensures
        stands_in(
            "<p><a href=\"/auth/start/"@ + crate::server::web::html(providers@[i]@) + "\">"@
                + crate::server::web::html(providers@[i]@) + "</a></p>\n"@,
            without_form@,
        ),
        exists|before: Seq<char>, after: Seq<char>| {
            &&& without_form@ == #[trigger] (before + after)
            &&& with_form@ == before + LOGIN_FORM@ + after
        },
{
    let all = crate::text::texts(providers@);
    assert(all[i] == providers@[i]@);
    link_is_among_providers(all, i);
    let own = "<p><a href=\"/auth/start/"@ + crate::server::web::html(all[i]) + "\">"@
        + crate::server::web::html(all[i]) + "</a></p>\n"@;
    let start = PAGE_START@ + "<h1>Sign in</h1>\n"@;
    let top = start + provider_links(all);
    assert(top + Seq::<char>::empty() =~= top);
    assert(without_form@ == top + PAGE_END@);
    piece_stands_in_page(own, start, provider_links(all), PAGE_END@, without_form@);
    assert(with_form@ == top + LOGIN_FORM@ + PAGE_END@);
}

/// Who is signed in is shown, with a way to sign out, exactly where one signs in.
pub proof fn account_is_shown_where_one_signs_in(
    email: &str,
    sessions: &Vec<SessionView>,
    approvals: &Vec<Approval>,
    readwrite: bool,
    with_auth: String,
    without_auth: String,
)
    requires
        call_ensures(dashboard, (email, sessions, approvals, readwrite, true), with_auth),
        call_ensures(dashboard, (email, sessions, approvals, readwrite, false), without_auth),
    ensures
        exists|before: Seq<char>, after: Seq<char>| {
            &&& without_auth@ == #[trigger] (before + after)
            &&& with_auth@ == before + ("<p>Signed in as "@ + crate::server::web::html(email@)
                + "</p>\n<form method=\"post\" action=\"/auth/logout\"><button>Sign out</button></form>\n"@)
                + after
        },
{
    let views = crate::protocol::approval::approval_views(approvals@);
    let before = PAGE_START@;
    let script = if readwrite {
        "<script>\n"@ + SHARED_SCRIPT@ + DASHBOARD_SCRIPT@ + "</script>\n"@
    } else {
        Seq::empty()
    };
    let rest = "<h1>Approvals</h1>\n<table id=\"approvals\">\n"@ + approval_rows(views, readwrite)
        + "</table>\n<h1>Sessions</h1>\n<table id=\"sessions\">\n"@ + session_rows(sessions@)
        + "</table>\n"@ + script + PAGE_END@;
    assert(before + Seq::<char>::empty() =~= before);
    seven_together(
        before,
        "<h1>Approvals</h1>\n<table id=\"approvals\">\n"@,
        approval_rows(views, readwrite),
        "</table>\n<h1>Sessions</h1>\n<table id=\"sessions\">\n"@,
        session_rows(sessions@),
        "</table>\n"@,
        script,
        PAGE_END@,
    );
    seven_together(
        before + account(email@, true),
        "<h1>Approvals</h1>\n<table id=\"approvals\">\n"@,
        approval_rows(views, readwrite),
        "</table>\n<h1>Sessions</h1>\n<table id=\"sessions\">\n"@,
        session_rows(sessions@),
        "</table>\n"@,
        script,
        PAGE_END@,
    );
    assert(without_auth@ == before + rest);
    assert(with_auth@ == before + account(email@, true) + rest);
}

/// The script that takes decisions stands in the dashboard exactly where decisions can be
/// taken.
pub proof fn script_stands_where_decisions_count(
    email: &str,
    sessions: &Vec<SessionView>,
    approvals: &Vec<Approval>,
    has_auth: bool,
    writable: String,
    readonly: String,
)
    requires
        approvals@.len() == 0,
        call_ensures(dashboard, (email, sessions, approvals, true, has_auth), writable),
        call_ensures(dashboard, (email, sessions, approvals, false, has_auth), readonly),
    ensures
        exists|before: Seq<char>, after: Seq<char>| {
            &&& readonly@ == #[trigger] (before + after)
            &&& writable@ == before + ("<script>\n"@ + SHARED_SCRIPT@ + DASHBOARD_SCRIPT@
                + "</script>\n"@) + after
        },
{
    let views = crate::protocol::approval::approval_views(approvals@);
    let before = PAGE_START@ + account(email@, has_auth)
        + "<h1>Approvals</h1>\n<table id=\"approvals\">\n"@ + approval_rows(views, true)
        + "</table>\n<h1>Sessions</h1>\n<table id=\"sessions\">\n"@ + session_rows(sessions@)
        + "</table>\n"@;
    assert(approval_rows(views, true) == approval_rows(views, false));
    assert(before + Seq::<char>::empty() =~= before);
    assert(readonly@ == before + PAGE_END@);
    assert(writable@ == before + ("<script>\n"@ + SHARED_SCRIPT@ + DASHBOARD_SCRIPT@
        + "</script>\n"@) + PAGE_END@);
}

} // verus!
