use vstd::prelude::*;
use vstd::string::StringSliceAdditionalSpecFns;
use vstd::utf8::encode_utf8;

use crate::document::Json;
use crate::error::{BotError, ReportError, ReportErrorReason};
use crate::report::{render_report, spec_report_text, spec_sprint_report, SprintReport};
use crate::text::{same_text, texts};

verus! {

/// How the bot names itself to the tracker.
#[derive(Debug, PartialEq, Eq)]
pub enum Credentials {
    /// HTTP Basic authentication.
    Basic { username: String, password: String },
    /// A session cookie sent with the request.
    Cookie { name: String, value: String },
}

/// Credentials as plain values.
pub enum CredentialsView {
    Basic { username: Seq<char>, password: Seq<char> },
    Cookie { name: Seq<char>, value: Seq<char> },
}

impl View for Credentials {
    type V = CredentialsView;

    open spec fn view(&self) -> CredentialsView {
        match self {
            Credentials::Basic { username, password } => CredentialsView::Basic {
                username: username@,
                password: password@,
            },
            Credentials::Cookie { name, value } => CredentialsView::Cookie {
                name: name@,
                value: value@,
            },
        }
    }
}

/// The text of a setting, where it is set.
pub open spec fn spec_setting(setting: Option<String>) -> Option<Seq<char>> {
    match setting {
        Some(text) => Some(text@),
        None => None,
    }
}

/// The name of the tracker's session cookie.
pub open spec fn spec_session_cookie_name() -> Seq<char> {
    "JSESSIONID"@
}

/// The credentials that the settings choose: a session id chooses the
/// session cookie; without one, a user name and a password together choose
/// HTTP Basic; with neither there are no credentials.
pub open spec fn spec_select_credentials(
    username: Option<Seq<char>>,
    password: Option<Seq<char>>,
    session_id: Option<Seq<char>>,
) -> Option<CredentialsView> {
    match (session_id, username, password) {
        (Some(value), _, _) => Some(
            CredentialsView::Cookie { name: spec_session_cookie_name(), value },
        ),
        (None, Some(username), Some(password)) => Some(
            CredentialsView::Basic { username, password },
        ),
        _ => None,
    }
}

impl Credentials {
    /// The credentials that the settings choose; `ConfigMissing` where they
    /// choose none.
    pub fn select(
        username: Option<String>,
        password: Option<String>,
        session_id: Option<String>,
    ) -> (r: Result<Credentials, BotError>)
        ensures
            match r {
                Ok(credentials) => spec_select_credentials(
                    spec_setting(username),
                    spec_setting(password),
                    spec_setting(session_id),
                ) == Some(credentials@),
                Err(e) => e == BotError::ConfigMissing && spec_select_credentials(
                    spec_setting(username),
                    spec_setting(password),
                    spec_setting(session_id),
                ) is None,
            },
    {
        match (session_id, username, password) {
            (Some(value), _, _) => Ok(
                Credentials::Cookie { name: "JSESSIONID".to_owned(), value },
            ),
            (None, Some(username), Some(password)) => Ok(
                Credentials::Basic { username, password },
            ),
            _ => Err(BotError::ConfigMissing),
        }
    }

    /// A copy of the credentials.
    pub fn duplicate(&self) -> (r: Credentials)
        ensures
            r == *self,
    {
        match self {
            Credentials::Basic { username, password } => Credentials::Basic {
                username: username.clone(),
                password: password.clone(),
            },
            Credentials::Cookie { name, value } => Credentials::Cookie {
                name: name.clone(),
                value: value.clone(),
            },
        }
    }
}

/// From when the days to the end of a sprint are counted.
#[derive(Debug, Clone, Copy, PartialEq, Eq, Structural)]
pub enum ReferencePoint {
    /// From the time at which the report is built.
    Now,
    /// From the start of the sprint.
    SprintStart,
}

impl ReferencePoint {
    /// The reference point that a setting names: `now` or `sprint_start`.
    /// Without the setting the days are counted from now.
    pub open spec fn spec_from_setting(setting: Option<Seq<char>>) -> Option<ReferencePoint> {
        match setting {
            None => Some(ReferencePoint::Now),
            Some(text) => if text == "now"@ {
                Some(ReferencePoint::Now)
            } else if text == "sprint_start"@ {
                Some(ReferencePoint::SprintStart)
            } else {
                None
            },
        }
    }

    /// The reference point that a setting names; `ConfigMissing` where it
    /// names none.
    pub fn from_setting(setting: Option<&str>) -> (r: Result<ReferencePoint, BotError>)
        ensures
            match r {
                Ok(reference) => ReferencePoint::spec_from_setting(
                    match setting {
                        Some(text) => Some(text@),
                        None => None,
                    },
                ) == Some(reference),
                Err(e) => e == BotError::ConfigMissing && ReferencePoint::spec_from_setting(
                    match setting {
                        Some(text) => Some(text@),
                        None => None,
                    },
                ) is None,
            },
    {
        match setting {
            None => Ok(ReferencePoint::Now),
            Some(text) => {
                if same_text(text, "now") {
                    Ok(ReferencePoint::Now)
                } else if same_text(text, "sprint_start") {
                    Ok(ReferencePoint::SprintStart)
                } else {
                    Err(BotError::ConfigMissing)
                }
            },
        }
    }
}

/// The request for a sprint report: where to send a GET, with which query
/// parameters and which credentials.
#[derive(Debug, PartialEq, Eq)]
pub struct ReportRequest {
    pub url: String,
    pub params: Vec<(String, String)>,
    pub credentials: Credentials,
}

/// How a request ended.
#[derive(Debug)]
pub enum HttpOutcome {
    /// No response came back.
    TransportFailure,
    /// A response came back, with this status and this body.
    Response { status: u16, body: String },
}

/// The host of the URL `url`, as `reqwest::Url::parse` and `Url::host_str`
/// give it: `None` where the text is no absolute URL and where the URL has
/// no host.
pub uninterp spec fn url_host(url: Seq<char>) -> Option<Seq<char>>;

/// Calls `reqwest::Url::parse` and, on the URL it returns, `host_str`.
#[verifier::external_body]
fn host_of(url: &str) -> (r: Option<String>)
    ensures
        match r {
            Some(host) => url_host(url@) == Some(host@),
            None => url_host(url@) is None,
        },
{
    match reqwest::Url::parse(url) {
        Ok(parsed) => parsed.host_str().map(|host| host.to_owned()),
        Err(_) => None,
    }
}

/// The query parameters that a sequence holds, as plain values.
pub open spec fn param_texts(params: Seq<(String, String)>) -> Seq<(Seq<char>, Seq<char>)> {
    params.map_values(|p: (String, String)| (p.0@, p.1@))
}

/// The URL `url` with `params` added to its query, as
/// `reqwest::Url::parse_with_params` gives it: `None` where `url` is no
/// absolute URL.
pub uninterp spec fn url_with_params(url: Seq<char>, params: Seq<(Seq<char>, Seq<char>)>) -> Option<
    Seq<char>,
>;

/// The number of bytes that a URL, and each name and value of a query
/// parameter, may have at most: 16777216.
pub open spec fn spec_url_part_limit() -> nat {
    0x100_0000
}

/// The number of query parameters that a request may have at most.
pub open spec fn spec_param_limit() -> nat {
    16
}

/// The URL and the query parameters are few and short enough for the URL
/// that they make to stay below four gibibytes, which is as far as a URL
/// counts its own length.
pub open spec fn spec_url_parts_fit(url: Seq<char>, params: Seq<(Seq<char>, Seq<char>)>) -> bool {
    &&& encode_utf8(url).len() <= spec_url_part_limit()
    &&& params.len() <= spec_param_limit()
    &&& forall|i: int|
        0 <= i < params.len() ==> encode_utf8((#[trigger] params[i]).0).len()
            <= spec_url_part_limit() && encode_utf8(params[i].1).len() <= spec_url_part_limit()
}

/// Whether the URL and the query parameters are few and short enough.
pub fn url_parts_fit(url: &str, params: &Vec<(String, String)>) -> (r: bool)
    ensures
        r == spec_url_parts_fit(url@, param_texts(params@)),
{
    proof {
        assert(param_texts(params@).len() == params@.len());
    }
    if url.as_bytes().len() > 0x100_0000 || params.len() > 16 {
        return false;
    }
    let mut i: usize = 0;
    while i < params.len()
        invariant
            i <= params.len(),
            param_texts(params@).len() == params@.len(),
            forall|k: int|
                0 <= k < i ==> encode_utf8((#[trigger] param_texts(params@)[k]).0).len()
                    <= spec_url_part_limit() && encode_utf8(param_texts(params@)[k].1).len()
                    <= spec_url_part_limit(),
        decreases params.len() - i,
    {
        proof {
            assert(param_texts(params@)[i as int] == (params@[i as int].0@, params@[i as int].1@));
        }
        let name = params[i].0.as_str().as_bytes();
        let value = params[i].1.as_str().as_bytes();
        proof {
            assert(name@ == encode_utf8(param_texts(params@)[i as int].0));
            assert(value@ == encode_utf8(param_texts(params@)[i as int].1));
        }
        if name.len() > 0x100_0000 || value.len() > 0x100_0000 {
            return false;
        }
        i += 1;
    }
    true
}

/// Calls `reqwest::Url::parse_with_params` and hands the URL back as text.
/// The call stores the length of the URL in 32 bits and stops the program
/// where it does not fit: the inputs that could make so long a URL are left
/// out.
#[verifier::external_body]
fn with_params(url: &str, params: &Vec<(String, String)>) -> (r: Option<String>)
    requires
        spec_url_parts_fit(url@, param_texts(params@)),
    ensures
        match r {
            Some(full) => url_with_params(url@, param_texts(params@)) == Some(full@),
            None => url_with_params(url@, param_texts(params@)) is None,
        },
{
    match reqwest::Url::parse_with_params(url, params) {
        Ok(full) => Some(String::from(full)),
        Err(_) => None,
    }
}

/// The URL to which the GET of a request goes: its URL with its parameters
/// added to the query. There is none where the URL is no absolute URL, and
/// where the parts are too many or too long.
pub open spec fn spec_target(url: Seq<char>, params: Seq<(Seq<char>, Seq<char>)>) -> Option<
    Seq<char>,
> {
    if spec_url_parts_fit(url, params) {
        url_with_params(url, params)
    } else {
        None
    }
}

impl ReportRequest {
    /// The URL to which the GET goes. Where there is none the request
    /// cannot be sent: a `FailedRequest`.
    pub fn target(&self) -> (r: Result<String, ReportError>)
        ensures
            match r {
                Ok(full) => spec_target(self.url@, param_texts(self.params@)) == Some(full@),
                Err(e) => spec_target(self.url@, param_texts(self.params@)) is None && e
                    == ReportError(ReportErrorReason::FailedRequest),
            },
    {
        if !url_parts_fit(self.url.as_str(), &self.params) {
            return Err(ReportError(ReportErrorReason::FailedRequest));
        }
        match with_params(self.url.as_str(), &self.params) {
            Some(full) => Ok(full),
            None => Err(ReportError(ReportErrorReason::FailedRequest)),
        }
    }
}

/// The names of `names` without repetitions: each name stays where it
/// first stands.
pub open spec fn spec_distinct(names: Seq<Seq<char>>) -> Seq<Seq<char>>
    decreases names.len(),
{
    if names.len() == 0 {
        Seq::empty()
    } else {
        let before = spec_distinct(names.drop_last());
        if before.contains(names.last()) {
            before
        } else {
            before.push(names.last())
        }
    }
}

/// No name stands twice in `spec_distinct(names)`.
pub proof fn lemma_distinct_has_no_duplicates(names: Seq<Seq<char>>)
    ensures
        spec_distinct(names).no_duplicates(),
    decreases names.len(),
{
    if names.len() > 0 {
        lemma_distinct_has_no_duplicates(names.drop_last());
    }
}

/// `spec_distinct(names)` holds the names that `names` holds, and no others.
pub proof fn lemma_distinct_keeps_members(names: Seq<Seq<char>>, name: Seq<char>)
    ensures
        spec_distinct(names).contains(name) <==> names.contains(name),
    decreases names.len(),
{
    if names.len() > 0 {
        let before = names.drop_last();
        lemma_distinct_keeps_members(before, name);
        if names.contains(name) {
            let i = choose|i: int| 0 <= i < names.len() && names[i] == name;
            if i < names.len() - 1 {
                assert(before[i] == name);
            }
        }
        if before.contains(name) {
            let i = choose|i: int| 0 <= i < before.len() && before[i] == name;
            assert(names[i] == name);
        }
        let kept = spec_distinct(before);
        if !kept.contains(names.last()) {
            assert(kept.push(names.last())[kept.len() as int] == names.last());
            if kept.contains(name) {
                let i = choose|i: int| 0 <= i < kept.len() && kept[i] == name;
                assert(kept.push(names.last())[i] == name);
            }
        }
        assert(names[names.len() - 1] == names.last());
    }
}

fn holds_name(names: &Vec<String>, name: &str) -> (r: bool)
    ensures
        r == texts(names@).contains(name@),
{
    let mut i: usize = 0;
    while i < names.len()
        invariant
            i <= names.len(),
            forall|k: int| 0 <= k < i ==> texts(names@)[k] != name@,
        decreases names.len() - i,
    {
        if same_text(names[i].as_str(), name) {
            proof {
                assert(texts(names@)[i as int] == name@);
            }
            return true;
        }
        i += 1;
    }
    false
}

/// The names of `names` without repetitions, each where it first stands.
pub fn distinct_names(names: &Vec<String>) -> (r: Vec<String>)
    ensures
        texts(r@) == spec_distinct(texts(names@)),
{
    let mut out: Vec<String> = Vec::new();
    let mut i: usize = 0;
    proof {
        assert(texts(names@).take(0) =~= Seq::<Seq<char>>::empty());
        assert(texts(out@) =~= Seq::<Seq<char>>::empty());
    }
    while i < names.len()
        invariant
            i <= names.len(),
            texts(out@) == spec_distinct(texts(names@).take(i as int)),
        decreases names.len() - i,
    {
        proof {
            let upto = texts(names@).take(i + 1);
            assert(upto.drop_last() =~= texts(names@).take(i as int));
            assert(upto.last() == names@[i as int]@);
        }
        if !holds_name(&out, names[i].as_str()) {
            let ghost before = texts(out@);
            let name = names[i].clone();
            out.push(name);
            proof {
                assert(texts(out@) =~= before.push(names@[i as int]@));
            }
        }
        i += 1;
    }
    proof {
        assert(texts(names@).take(names.len() as int) =~= texts(names@));
    }
    out
}

/// The part of a response's status that decides: whether it is one of the
/// success statuses, 200 to 299.
pub open spec fn spec_is_success(status: u16) -> bool {
    200 <= status <= 299
}

/// What a request's outcome holds: the JSON of the body of a response with a
/// success status. Else a `FailedRequest` where no response came back or its
/// status is no success, and a `ReportParsingError` where the body is not
/// JSON.
pub open spec fn spec_read_response(outcome: HttpOutcome) -> Result<Json, ReportError> {
    match outcome {
        HttpOutcome::TransportFailure => Err(ReportError(ReportErrorReason::FailedRequest)),
        HttpOutcome::Response { status, body } => if !spec_is_success(status) {
            Err(ReportError(ReportErrorReason::FailedRequest))
        } else {
            match Json::spec_parse(body@) {
                Some(doc) => Ok(doc),
                None => Err(ReportError(ReportErrorReason::ReportParsingError)),
            }
        },
    }
}

/// Reads the JSON off a request's outcome.
pub fn read_response(outcome: &HttpOutcome) -> (r: Result<Json, ReportError>)
    ensures
        r == spec_read_response(*outcome),
{
    match outcome {
        HttpOutcome::TransportFailure => Err(ReportError(ReportErrorReason::FailedRequest)),
        HttpOutcome::Response { status, body } => {
            if *status < 200 || *status > 299 {
                return Err(ReportError(ReportErrorReason::FailedRequest));
            }
            match Json::parse(body.as_str()) {
                Some(doc) => Ok(doc),
                None => Err(ReportError(ReportErrorReason::ReportParsingError)),
            }
        },
    }
}

/// The time stamp from which the days to the end of a sprint are counted.
pub open spec fn spec_reference_time(reference: ReferencePoint, now: int, start: int) -> int {
    match reference {
        ReferencePoint::Now => now,
        ReferencePoint::SprintStart => start,
    }
}

/// The report on a response of the tracker, for the roster `users` and the
/// tracker's host `host`: its text, or why the response cannot be read.
pub open spec fn spec_build_report(
    doc: Json,
    users: Seq<Seq<char>>,
    host: Seq<char>,
    reference: ReferencePoint,
    now: int,
) -> Result<Seq<char>, ReportError> {
    match spec_sprint_report(doc) {
        Ok(report) => Ok(
            spec_report_text(
                report,
                users,
                host,
                spec_reference_time(reference, now, report.start.timestamp as int),
            ),
        ),
        Err(e) => Err(e),
    }
}

/// The text of a report as plain values, or why there is none.
pub open spec fn spec_result_text(report: Result<String, ReportError>) -> Result<
    Seq<char>,
    ReportError,
> {
    match report {
        Ok(text) => Ok(text@),
        Err(e) => Err(e),
    }
}

/// The report that the outcome of a request gives: why the request or the
/// reading of the response failed, or the text built from the response.
pub open spec fn spec_report_of_outcome(
    outcome: HttpOutcome,
    users: Seq<Seq<char>>,
    host: Seq<char>,
    reference: ReferencePoint,
    now: int,
) -> Result<Seq<char>, ReportError> {
    match spec_read_response(outcome) {
        Ok(doc) => spec_build_report(doc, users, host, reference, now),
        Err(e) => Err(e),
    }
}

/// Building a report twice from the same response, for the same roster and
/// host and with the same reference time, gives the same text both times,
/// or the same failure.
pub proof fn lemma_same_input_same_report(
    doc: Json,
    users: Seq<Seq<char>>,
    host: Seq<char>,
    reference: ReferencePoint,
    now: int,
    first: Result<String, ReportError>,
    second: Result<String, ReportError>,
)
    requires
        spec_result_text(first) == spec_build_report(doc, users, host, reference, now),
        spec_result_text(second) == spec_build_report(doc, users, host, reference, now),
    ensures
        spec_result_text(first) == spec_result_text(second),
        first is Ok ==> second is Ok && first->Ok_0@ == second->Ok_0@,
{
}

/// The tracker as the bot is configured for it: where it is, how the bot
/// names itself to it, and the roster of users that a report sizes.
#[derive(Debug)]
pub struct Jira {
    base_url: String,
    host: String,
    credentials: Credentials,
    users: Vec<String>,
    reference: ReferencePoint,
}

impl Jira {
    /// The base URL of the tracker.
    pub closed spec fn spec_base_url(&self) -> Seq<char> {
        self.base_url@
    }

    /// The host that reports link to.
    pub closed spec fn spec_host(&self) -> Seq<char> {
        self.host@
    }

    pub closed spec fn spec_credentials(&self) -> Credentials {
        self.credentials
    }

    /// The roster, in its order.
    pub closed spec fn spec_users(&self) -> Seq<Seq<char>> {
        texts(self.users@)
    }

    pub closed spec fn spec_reference(&self) -> ReferencePoint {
        self.reference
    }

    /// The tracker at `base_url`, given the host that was read off that URL.
    /// Without a host there is no tracker to link to: `ConfigMissing`. The
    /// roster is `users` without repetitions.
    pub fn with_host(
        base_url: &str,
        host: Option<String>,
        credentials: Credentials,
        users: &Vec<String>,
        reference: ReferencePoint,
    ) -> (r: Result<Jira, BotError>)
        ensures
            match r {
                Ok(jira) => {
                    &&& host is Some
                    &&& jira.spec_base_url() == base_url@
                    &&& jira.spec_host() == host->0@
                    &&& jira.spec_credentials() == credentials
                    &&& jira.spec_users() == spec_distinct(texts(users@))
                    &&& jira.spec_reference() == reference
                },
                Err(e) => host is None && e == BotError::ConfigMissing,
            },
    {
        match host {
            Some(host) => Ok(
                Jira {
                    base_url: base_url.to_owned(),
                    host,
                    credentials,
                    users: distinct_names(users),
                    reference,
                },
            ),
            None => Err(BotError::ConfigMissing),
        }
    }

    /// The tracker at `base_url`. The host is read off the URL; where it has
    /// none, the result is `ConfigMissing`.
    pub fn new(
        base_url: &str,
        credentials: Credentials,
        users: &Vec<String>,
        reference: ReferencePoint,
    ) -> (r: Result<Jira, BotError>)
        ensures
            match r {
                Ok(jira) => {
                    &&& url_host(base_url@) == Some(jira.spec_host())
                    &&& jira.spec_base_url() == base_url@
                    &&& jira.spec_credentials() == credentials
                    &&& jira.spec_users() == spec_distinct(texts(users@))
                    &&& jira.spec_reference() == reference
                },
                Err(e) => url_host(base_url@) is None && e == BotError::ConfigMissing,
            },
    {
        Jira::with_host(base_url, host_of(base_url), credentials, users, reference)
    }

    /// The host that reports link to.
    pub fn host(&self) -> (r: &str)
        ensures
            r@ == self.spec_host(),
    {
        self.host.as_str()
    }

    /// The roster, in its order.
    pub fn users(&self) -> (r: &Vec<String>)
        ensures
            texts(r@) == self.spec_users(),
    {
        &self.users
    }

    /// The path of the sprint report under the tracker's base URL.
    pub open spec fn spec_report_path() -> Seq<char> {
        "rest/greenhopper/1.0/rapid/charts/sprintreport"@
    }

    /// The request for the report of sprint `sprint_id` on board `rapid_id`.
    pub fn jira_request(&self, rapid_id: &str, sprint_id: &str) -> (r: ReportRequest)
        ensures
            r.url@ == self.spec_base_url() + Jira::spec_report_path(),
            r.params@.len() == 2,
            r.params@[0].0@ == "rapidViewId"@,
            r.params@[0].1@ == rapid_id@,
            r.params@[1].0@ == "sprintId"@,
            r.params@[1].1@ == sprint_id@,
            r.credentials == self.spec_credentials(),
    {
        let mut url = self.base_url.clone();
        url.append("rest/greenhopper/1.0/rapid/charts/sprintreport");
        let mut params: Vec<(String, String)> = Vec::new();
        params.push(("rapidViewId".to_owned(), rapid_id.to_owned()));
        params.push(("sprintId".to_owned(), sprint_id.to_owned()));
        ReportRequest { url, params, credentials: self.credentials.duplicate() }
    }

    /// Builds the report on a response of the tracker. `now` is the time
    /// stamp of the moment of the call, on the clock of the sprint's dates.
    pub fn build_report(&self, report: &Json, now: i64) -> (r: Result<String, ReportError>)
        ensures
            spec_result_text(r) == spec_build_report(
                *report,
                self.spec_users(),
                self.spec_host(),
                self.spec_reference(),
                now as int,
            ),
    {
        match SprintReport::from_json(report) {
            Ok(parsed) => {
                let reference = match self.reference {
                    ReferencePoint::Now => now,
                    ReferencePoint::SprintStart => parsed.start.timestamp(),
                };
                Ok(render_report(&parsed, &self.users, self.host.as_str(), reference))
            },
            Err(e) => Err(e),
        }
    }

    /// The report that the outcome of a request gives: why it failed, or
    /// the text built from the response.
    pub fn sprint_report(&self, outcome: &HttpOutcome, now: i64) -> (r: Result<
        String,
        ReportError,
    >)
        ensures
            spec_result_text(r) == spec_report_of_outcome(
                *outcome,
                self.spec_users(),
                self.spec_host(),
                self.spec_reference(),
                now as int,
            ),
    {
        match read_response(outcome) {
            Ok(doc) => self.build_report(&doc, now),
            Err(e) => Err(e),
        }
    }
}

} // verus!
