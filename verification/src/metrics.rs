//! Parsing of the metrics payloads and the display state they feed.
//!
//! The fetch loop downloads JSON text from the metrics endpoint and hands
//! it to these parsers, which extract commit counts, pull-request
//! summaries and workflow-run summaries.  The parsed results are merged
//! into the display state, preserving what the fetch does not own: the
//! carousel position and the token counters.
use vstd::prelude::*;

use crate::grammar::{is_wf_json, wf_json_bytes};
use crate::json::{
    json_array_len, json_elem_int_field, json_elem_str_field, json_int_field, read_array_len,
    read_elem_int_field, read_elem_str_field, read_int_field,
};
use vstd::string::StringExecFns;
use vstd::string::StringSliceAdditionalSpecFns;

verus! {

/// Base URL of the metrics endpoints.
pub const METRICS_BASE_URL: &'static str = "https://cappycoding.koyeb.app/metrics";

/// Fixed `User-Agent` header value sent with every metrics request.
pub const METRICS_USER_AGENT: &'static str = "ESP32-Client";

/// Commit counts: all time, last week, last month.
pub struct CommitData {
    pub total: u32,
    pub last_week: u32,
    pub last_month: u32,
}

/// One workflow run, as shown on the display.
pub struct WorkflowData {
    pub name: String,
    pub status: String,
    pub conclusion: String,
    pub html_url: String,
    pub created_at: String,
    pub updated_at: String,
}

/// One pull request, as shown on the display.
pub struct PullRequestData {
    pub number: u32,
    pub title: String,
    pub state: String,
    pub url: String,
    pub updated_at: String,
    pub author: String,
}

/// Everything the render task draws: the parsed metrics plus the
/// carousel position and token counters.
pub struct CapyState {
    pub commits: CommitData,
    pub pr: Vec<PullRequestData>,
    pub workflow: Vec<WorkflowData>,
    pub carousel_index: u32,
    pub used_tokens: u32,
    pub max_tokens: u32,
}

/// Element `i` of the workflows payload has every expected field.
pub open spec fn spec_workflow_at(text: Seq<char>, i: int) -> bool {
    &&& json_elem_str_field(text, i, "name"@) is Some
    &&& json_elem_str_field(text, i, "status"@) is Some
    &&& json_elem_str_field(text, i, "conclusion"@) is Some
    &&& json_elem_str_field(text, i, "htmlUrl"@) is Some
    &&& json_elem_str_field(text, i, "createdAt"@) is Some
    &&& json_elem_str_field(text, i, "updatedAt"@) is Some
}

/// `w` holds exactly the fields of element `i` of the workflows payload.
pub open spec fn spec_workflow_matches(text: Seq<char>, i: int, w: WorkflowData) -> bool {
    &&& json_elem_str_field(text, i, "name"@) == Some(w.name@)
    &&& json_elem_str_field(text, i, "status"@) == Some(w.status@)
    &&& json_elem_str_field(text, i, "conclusion"@) == Some(w.conclusion@)
    &&& json_elem_str_field(text, i, "htmlUrl"@) == Some(w.html_url@)
    &&& json_elem_str_field(text, i, "createdAt"@) == Some(w.created_at@)
    &&& json_elem_str_field(text, i, "updatedAt"@) == Some(w.updated_at@)
}

/// Element `i` of the pull-requests payload has every expected field.
pub open spec fn spec_pull_request_at(text: Seq<char>, i: int) -> bool {
    &&& json_elem_int_field(text, i, "number"@) is Some
    &&& json_elem_str_field(text, i, "title"@) is Some
    &&& json_elem_str_field(text, i, "state"@) is Some
    &&& json_elem_str_field(text, i, "url"@) is Some
    &&& json_elem_str_field(text, i, "updatedAt"@) is Some
    &&& json_elem_str_field(text, i, "author"@) is Some
}

/// `p` holds exactly the fields of element `i` of the payload.
pub open spec fn spec_pull_request_matches(text: Seq<char>, i: int, p: PullRequestData) -> bool {
    &&& json_elem_int_field(text, i, "number"@) matches Some(n) && p.number == n as u32
    &&& json_elem_str_field(text, i, "title"@) == Some(p.title@)
    &&& json_elem_str_field(text, i, "state"@) == Some(p.state@)
    &&& json_elem_str_field(text, i, "url"@) == Some(p.url@)
    &&& json_elem_str_field(text, i, "updatedAt"@) == Some(p.updated_at@)
    &&& json_elem_str_field(text, i, "author"@) == Some(p.author@)
}

/// Extracts the three commit counts, one `total` field per payload.
/// `None` exactly when a payload falls outside the accepted JSON subset
/// or lacks its count.
pub fn parse_commits(all_time: &str, last_month: &str, last_week: &str) -> (r: Option<CommitData>)
    ensures
        match r {
            Some(c) => {
                &&& wf_json_bytes(all_time.spec_bytes())
                &&& wf_json_bytes(last_month.spec_bytes())
                &&& wf_json_bytes(last_week.spec_bytes())
                &&& json_int_field(all_time@, "total"@) matches Some(x) && c.total == x as u32
                &&& json_int_field(last_month@, "total"@) matches Some(y) && c.last_month == y as u32
                &&& json_int_field(last_week@, "total"@) matches Some(z) && c.last_week == z as u32
            },
            None => {
                ||| !wf_json_bytes(all_time.spec_bytes())
                ||| !wf_json_bytes(last_month.spec_bytes())
                ||| !wf_json_bytes(last_week.spec_bytes())
                ||| json_int_field(all_time@, "total"@) is None
                ||| json_int_field(last_month@, "total"@) is None
                ||| json_int_field(last_week@, "total"@) is None
            },
        },
{
    if !is_wf_json(all_time) || !is_wf_json(last_month) || !is_wf_json(last_week) {
        return None;
    }
    let Some(x) = read_int_field(all_time, "total") else {
        return None;
    };
    let Some(y) = read_int_field(last_month, "total") else {
        return None;
    };
    let Some(z) = read_int_field(last_week, "total") else {
        return None;
    };
    Some(
        CommitData {
            total: #[verifier::truncate] (x as u32),
            last_week: #[verifier::truncate] (z as u32),
            last_month: #[verifier::truncate] (y as u32),
        },
    )
}

/// Extracts the workflow-run summaries from the workflows payload:
/// one record per array element, in order.  `None` exactly when the
/// text falls outside the accepted JSON subset, is no array, or an
/// element lacks a field.
pub fn parse_workflows(buffer: &str) -> (r: Option<Vec<WorkflowData>>)
    ensures
        match r {
            Some(v) => {
                &&& wf_json_bytes(buffer.spec_bytes())
                &&& json_array_len(buffer@) matches Some(n) && v@.len() == n
                &&& forall|i: int| 0 <= i < v@.len() ==> spec_workflow_matches(buffer@, i, v@[i])
            },
            None => {
                ||| !wf_json_bytes(buffer.spec_bytes())
                ||| match json_array_len(buffer@) {
                    None => true,
                    Some(n) => exists|i: int| 0 <= i < n && !spec_workflow_at(buffer@, i),
                }
            },
        },
        (wf_json_bytes(buffer.spec_bytes()) && (json_array_len(buffer@) matches Some(n)
            && forall|i: int| 0 <= i < n ==> spec_workflow_at(buffer@, i))) ==> r is Some,
{
    if !is_wf_json(buffer) {
        return None;
    }
    let Some(n) = read_array_len(buffer) else {
        return None;
    };
    let mut out: Vec<WorkflowData> = Vec::new();
    let mut i: usize = 0;
    while i < n
        invariant
            i <= n,
            out@.len() == i,
            wf_json_bytes(buffer.spec_bytes()),
            json_array_len(buffer@) == Some(n),
            forall|j: int| 0 <= j < i ==> spec_workflow_matches(buffer@, j, out@[j]),
        decreases n - i,
    {
        let Some(w) = read_workflow(buffer, i) else {
            assert(0 <= i < n && !spec_workflow_at(buffer@, i as int));
            return None;
        };
        out.push(w);
        i = i + 1;
    }
    Some(out)
}

/// Reads the six fields of element `i` of the workflows payload.
fn read_workflow(buffer: &str, i: usize) -> (r: Option<WorkflowData>)
    requires
        wf_json_bytes(buffer.spec_bytes()),
    ensures
        match r {
            Some(w) => spec_workflow_matches(buffer@, i as int, w),
            None => !spec_workflow_at(buffer@, i as int),
        },
{
    let Some(name) = read_elem_str_field(buffer, i, "name") else {
        return None;
    };
    let Some(status) = read_elem_str_field(buffer, i, "status") else {
        return None;
    };
    let Some(conclusion) = read_elem_str_field(buffer, i, "conclusion") else {
        return None;
    };
    let Some(html_url) = read_elem_str_field(buffer, i, "htmlUrl") else {
        return None;
    };
    let Some(created_at) = read_elem_str_field(buffer, i, "createdAt") else {
        return None;
    };
    let Some(updated_at) = read_elem_str_field(buffer, i, "updatedAt") else {
        return None;
    };
    Some(WorkflowData { name, status, conclusion, html_url, created_at, updated_at })
}

/// Extracts the pull-request summaries from the pull-requests payload:
/// one record per array element, in order.  `None` exactly when the
/// text falls outside the accepted JSON subset, is no array, or an
/// element lacks a field.
pub fn parse_pull_requests(buffer: &str) -> (r: Option<Vec<PullRequestData>>)
    ensures
        match r {
            Some(v) => {
                &&& wf_json_bytes(buffer.spec_bytes())
                &&& json_array_len(buffer@) matches Some(n) && v@.len() == n
                &&& forall|i: int|
                    0 <= i < v@.len() ==> spec_pull_request_matches(buffer@, i, v@[i])
            },
            None => {
                ||| !wf_json_bytes(buffer.spec_bytes())
                ||| match json_array_len(buffer@) {
                    None => true,
                    Some(n) => exists|i: int| 0 <= i < n && !spec_pull_request_at(buffer@, i),
                }
            },
        },
        (wf_json_bytes(buffer.spec_bytes()) && (json_array_len(buffer@) matches Some(n)
            && forall|i: int| 0 <= i < n ==> spec_pull_request_at(buffer@, i))) ==> r is Some,
{
    if !is_wf_json(buffer) {
        return None;
    }
    let Some(n) = read_array_len(buffer) else {
        return None;
    };
    let mut out: Vec<PullRequestData> = Vec::new();
    let mut i: usize = 0;
    while i < n
        invariant
            i <= n,
            out@.len() == i,
            wf_json_bytes(buffer.spec_bytes()),
            json_array_len(buffer@) == Some(n),
            forall|j: int| 0 <= j < i ==> spec_pull_request_matches(buffer@, j, out@[j]),
        decreases n - i,
    {
        let Some(p) = read_pull_request(buffer, i) else {
            assert(0 <= i < n && !spec_pull_request_at(buffer@, i as int));
            return None;
        };
        out.push(p);
        i = i + 1;
    }
    Some(out)
}

/// Reads the six fields of element `i` of the pull-requests payload.
fn read_pull_request(buffer: &str, i: usize) -> (r: Option<PullRequestData>)
    requires
        wf_json_bytes(buffer.spec_bytes()),
    ensures
        match r {
            Some(p) => spec_pull_request_matches(buffer@, i as int, p),
            None => !spec_pull_request_at(buffer@, i as int),
        },
{
    let Some(number) = read_elem_int_field(buffer, i, "number") else {
        return None;
    };
    let Some(title) = read_elem_str_field(buffer, i, "title") else {
        return None;
    };
    let Some(state) = read_elem_str_field(buffer, i, "state") else {
        return None;
    };
    let Some(url) = read_elem_str_field(buffer, i, "url") else {
        return None;
    };
    let Some(updated_at) = read_elem_str_field(buffer, i, "updatedAt") else {
        return None;
    };
    let Some(author) = read_elem_str_field(buffer, i, "author") else {
        return None;
    };
    Some(
        PullRequestData {
            number: #[verifier::truncate] (number as u32),
            title,
            state,
            url,
            updated_at,
            author,
        },
    )
}

/// Merges freshly parsed metrics into the display state.  The fetch loop
/// owns the metrics; the carousel position and token counters belong to
/// other tasks and are preserved (zero before the first state exists).
pub fn apply_metrics(
    prev: &Option<CapyState>,
    commits: CommitData,
    prs: Vec<PullRequestData>,
    workflows: Vec<WorkflowData>,
) -> (r: CapyState)
    ensures
        r.commits == commits,
        r.pr == prs,
        r.workflow == workflows,
        match prev {
            Some(p) => {
                &&& r.carousel_index == p.carousel_index
                &&& r.used_tokens == p.used_tokens
                &&& r.max_tokens == p.max_tokens
            },
            None => {
                &&& r.carousel_index == 0
                &&& r.used_tokens == 0
                &&& r.max_tokens == 0
            },
        },
{
    let (carousel_index, used_tokens, max_tokens) = match prev {
        Some(p) => (p.carousel_index, p.used_tokens, p.max_tokens),
        None => (0, 0, 0),
    };
    CapyState { commits, pr: prs, workflow: workflows, carousel_index, used_tokens, max_tokens }
}


/// The three metrics endpoints the fetch loop queries.
#[derive(PartialEq, Eq, Structural, Clone, Copy, Debug)]
pub enum MetricsEndpoint {
    PullRequests,
    Workflows,
    Commits,
}

/// The URL queried for one endpoint: the base, the endpoint's path, the
/// user, a page bound for the two list endpoints, and an optional time
/// window for the commit counts.
pub open spec fn spec_metrics_url(
    base: Seq<char>,
    endpoint: MetricsEndpoint,
    user: Seq<char>,
    since: Option<Seq<char>>,
) -> Seq<char> {
    match endpoint {
        MetricsEndpoint::PullRequests => base + "/prs?user="@ + user + "&per_page=5"@,
        MetricsEndpoint::Workflows => base + "/workflows?user="@ + user + "&per_page=5"@,
        MetricsEndpoint::Commits => match since {
            Some(s) => base + "/commits?user="@ + user + "&since="@ + s,
            None => base + "/commits?user="@ + user,
        },
    }
}

/// Builds the URL for one endpoint query.
pub fn metrics_url(base: &str, endpoint: MetricsEndpoint, user: &str, since: Option<&str>) -> (r:
    String)
    ensures
        match since {
            Some(s) => r@ == spec_metrics_url(base@, endpoint, user@, Some(s@)),
            None => r@ == spec_metrics_url(base@, endpoint, user@, None),
        },
{
    let mut url = String::from_str(base);
    match endpoint {
        MetricsEndpoint::PullRequests => {
            url.append("/prs?user=");
            url.append(user);
            url.append("&per_page=5");
        },
        MetricsEndpoint::Workflows => {
            url.append("/workflows?user=");
            url.append(user);
            url.append("&per_page=5");
        },
        MetricsEndpoint::Commits => {
            url.append("/commits?user=");
            url.append(user);
            if let Some(s) = since {
                url.append("&since=");
                url.append(s);
            }
        },
    }
    proof {
        match since {
            Some(s) => assert(url@ =~= spec_metrics_url(base@, endpoint, user@, Some(s@))),
            None => assert(url@ =~= spec_metrics_url(base@, endpoint, user@, None)),
        }
    }
    url
}

/// Value of the `Authorization` header: the scheme word `token`, one
/// space, then the stored token bytes.
pub open spec fn spec_auth_header(token: Seq<u8>) -> Seq<u8> {
    seq![116u8, 111, 107, 101, 110, 32] + token
}

/// Builds the `Authorization` header value for the stored token.
pub fn auth_header(token: &Vec<u8>) -> (r: Vec<u8>)
    ensures
        r@ == spec_auth_header(token@),
{
    let mut r: Vec<u8> = Vec::new();
    r.push(116);
    r.push(111);
    r.push(107);
    r.push(101);
    r.push(110);
    r.push(32);
    let ghost pre = r@;
    let tlen = token.len();
    let mut i: usize = 0;
    while i < tlen
        invariant
            i <= tlen,
            tlen == token@.len(),
            r@ == pre + token@.subrange(0, i as int),
        decreases tlen - i,
    {
        r.push(token[i]);
        assert(r@ =~= pre + token@.subrange(0, i + 1 as int));
        i = i + 1;
    }
    assert(r@ =~= spec_auth_header(token@));
    r
}

/// The commits payloads all carry their count.
pub open spec fn spec_commits_ok(all_time: Seq<char>, last_month: Seq<char>, last_week: Seq<char>) -> bool {
    &&& json_int_field(all_time, "total"@) is Some
    &&& json_int_field(last_month, "total"@) is Some
    &&& json_int_field(last_week, "total"@) is Some
}

/// The workflows payload is an array whose every element is complete.
pub open spec fn spec_workflows_ok(text: Seq<char>) -> bool {
    match json_array_len(text) {
        Some(n) => forall|i: int| 0 <= i < n ==> spec_workflow_at(text, i),
        None => false,
    }
}

/// The pull-requests payload is an array whose every element is complete.
pub open spec fn spec_pull_requests_ok(text: Seq<char>) -> bool {
    match json_array_len(text) {
        Some(n) => forall|i: int| 0 <= i < n ==> spec_pull_request_at(text, i),
        None => false,
    }
}

/// One round of the fetch loop, after the downloads: parses the five
/// payloads and merges them into the display state.  `None` — the
/// caller's signal to wait out the retry interval and fetch again —
/// exactly when a download failed, a payload falls outside the accepted
/// JSON subset, or a payload does not parse; a fetch failure is
/// transient, never fatal.
pub fn metrics_round(
    prev: &Option<CapyState>,
    prs_text: Option<&str>,
    workflows_text: Option<&str>,
    all_time: Option<&str>,
    last_month: Option<&str>,
    last_week: Option<&str>,
) -> (r: Option<CapyState>)
    ensures
        r is Some <==> {
            &&& prs_text matches Some(p) && wf_json_bytes(p.spec_bytes())
                && spec_pull_requests_ok(p@)
            &&& workflows_text matches Some(w) && wf_json_bytes(w.spec_bytes())
                && spec_workflows_ok(w@)
            &&& all_time matches Some(a) && last_month matches Some(m) && last_week matches Some(
                k,
            ) && wf_json_bytes(a.spec_bytes()) && wf_json_bytes(m.spec_bytes()) && wf_json_bytes(
                k.spec_bytes(),
            ) && spec_commits_ok(a@, m@, k@)
        },
        r matches Some(state) ==> {
            &&& prs_text matches Some(p) && json_array_len(p@) matches Some(n) && state.pr@.len()
                == n && forall|i: int|
                0 <= i < state.pr@.len() ==> spec_pull_request_matches(p@, i, state.pr@[i])
            &&& workflows_text matches Some(w) && json_array_len(w@) matches Some(n)
                && state.workflow@.len() == n && forall|i: int|
                0 <= i < state.workflow@.len() ==> spec_workflow_matches(w@, i, state.workflow@[i])
            &&& all_time matches Some(a) && json_int_field(a@, "total"@) matches Some(x)
                && state.commits.total == x as u32
            &&& last_month matches Some(m) && json_int_field(m@, "total"@) matches Some(y)
                && state.commits.last_month == y as u32
            &&& last_week matches Some(k) && json_int_field(k@, "total"@) matches Some(z)
                && state.commits.last_week == z as u32
            &&& match prev {
                Some(p) => state.carousel_index == p.carousel_index && state.used_tokens
                    == p.used_tokens && state.max_tokens == p.max_tokens,
                None => state.carousel_index == 0 && state.used_tokens == 0 && state.max_tokens
                    == 0,
            }
        },
{
    let Some(prs_text) = prs_text else {
        return None;
    };
    let Some(workflows_text) = workflows_text else {
        return None;
    };
    let Some(all_time) = all_time else {
        return None;
    };
    let Some(last_month) = last_month else {
        return None;
    };
    let Some(last_week) = last_week else {
        return None;
    };
    let Some(prs) = parse_pull_requests(prs_text) else {
        return None;
    };
    let Some(workflows) = parse_workflows(workflows_text) else {
        return None;
    };
    let Some(commits) = parse_commits(all_time, last_month, last_week) else {
        return None;
    };
    proof {
        assert forall|i: int| 0 <= i < prs@.len() implies spec_pull_request_at(
            prs_text@,
            i,
        ) by {
            assert(spec_pull_request_matches(prs_text@, i, prs@[i]));
        }
        assert(spec_pull_requests_ok(prs_text@));
        assert forall|i: int| 0 <= i < workflows@.len() implies spec_workflow_at(
            workflows_text@,
            i,
        ) by {
            assert(spec_workflow_matches(workflows_text@, i, workflows@[i]));
        }
        assert(spec_workflows_ok(workflows_text@));
    }
    Some(apply_metrics(prev, commits, prs, workflows))
}

} // verus!
