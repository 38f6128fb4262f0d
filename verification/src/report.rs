use vstd::prelude::*;

use crate::date::{
    append_pretty_date, chrono_parsed, days_between, parse_tracker_date, spec_days_between,
    spec_pretty_date, spec_tracker_date, tracker_date_format, DateFields, DateTime,
};
use crate::document::Json;
use crate::error::{ReportError, ReportErrorReason};
use crate::measure::{
    append_percent, share_limit, spec_percent_tenths, spec_percent_text, spec_tenths_text,
    spec_whole_hours, whole_hours,
};
use crate::text::{append_decimal, same_text, spec_decimal, spec_magnitude, texts};

verus! {

/// One issue of a sprint.
#[derive(Debug, PartialEq, Eq)]
pub struct Issue {
    pub key: String,
    /// The account that the issue is assigned to, where it is assigned.
    pub assignee: Option<String>,
    /// The assignee's name for a reader.
    pub assignee_name: String,
    /// The estimate in seconds, where the issue has one.
    pub estimate: Option<i64>,
}

/// An issue as plain values.
pub struct IssueView {
    pub key: Seq<char>,
    pub assignee: Option<Seq<char>>,
    pub assignee_name: Seq<char>,
    pub estimate: Option<i64>,
}

impl View for Issue {
    type V = IssueView;

    open spec fn view(&self) -> IssueView {
        IssueView {
            key: self.key@,
            assignee: match self.assignee {
                Some(a) => Some(a@),
                None => None,
            },
            assignee_name: self.assignee_name@,
            estimate: self.estimate,
        }
    }
}

/// The issues that a sequence holds, as plain values.
pub open spec fn issue_views(issues: Seq<Issue>) -> Seq<IssueView> {
    issues.map_values(|i: Issue| i@)
}

/// What a sprint report says: the sprint, its estimate totals in seconds and
/// its issues, those that are completed and those that are not.
#[derive(Debug)]
pub struct SprintReport {
    pub name: String,
    pub start: DateTime,
    pub end: DateTime,
    pub completed_seconds: i64,
    pub incomplete_seconds: i64,
    pub total_seconds: i64,
    pub completed_issues: Vec<Issue>,
    pub incomplete_issues: Vec<Issue>,
}

/// A sprint report as plain values.
pub struct SprintReportView {
    pub name: Seq<char>,
    pub start: DateFields,
    pub end: DateFields,
    pub completed_seconds: i64,
    pub incomplete_seconds: i64,
    pub total_seconds: i64,
    pub completed_issues: Seq<IssueView>,
    pub incomplete_issues: Seq<IssueView>,
}

impl View for SprintReport {
    type V = SprintReportView;

    open spec fn view(&self) -> SprintReportView {
        SprintReportView {
            name: self.name@,
            start: self.start@,
            end: self.end@,
            completed_seconds: self.completed_seconds,
            incomplete_seconds: self.incomplete_seconds,
            total_seconds: self.total_seconds,
            completed_issues: issue_views(self.completed_issues@),
            incomplete_issues: issue_views(self.incomplete_issues@),
        }
    }
}

/// A value as a report writes it: the text of a string, a number as the
/// json crate prints it, `true` or `false` for a boolean, and `null` for
/// anything else.
pub open spec fn spec_label(value: Json) -> Seq<char> {
    match value {
        Json::Text(text) => text@,
        Json::Number(_, text) => text@,
        Json::Bool(true) => "true"@,
        Json::Bool(false) => "false"@,
        _ => "null"@,
    }
}

/// A value as a report writes it.
pub fn label(value: &Json) -> (r: String)
    ensures
        r@ == spec_label(*value),
{
    match value {
        Json::Text(text) => text.clone(),
        Json::Number(_, text) => text.clone(),
        Json::Bool(true) => "true".to_owned(),
        Json::Bool(false) => "false".to_owned(),
        _ => "null".to_owned(),
    }
}

/// The estimate of an issue: the whole number under `estimateStatistic`,
/// `statFieldValue`, `value`, where there is one.
pub open spec fn spec_estimate(issue: Json) -> Option<i64> {
    issue.spec_get("estimateStatistic"@).spec_get("statFieldValue"@).spec_get(
        "value"@,
    ).spec_whole_i64()
}

/// The issue that a member of an issue list describes.
pub open spec fn spec_issue(issue: Json) -> IssueView {
    IssueView {
        key: spec_label(issue.spec_get("key"@)),
        assignee: issue.spec_get("assignee"@).spec_text(),
        assignee_name: spec_label(issue.spec_get("assigneeName"@)),
        estimate: spec_estimate(issue),
    }
}

/// The issues that an issue list describes, in its order. What is no array
/// holds no issues.
pub open spec fn spec_issue_list(list: Json) -> Seq<IssueView> {
    list.spec_items().map_values(|issue: Json| spec_issue(issue))
}

impl Issue {
    /// Reads an issue off a member of an issue list. No field is required:
    /// a key or a name that is missing reads `null`, and an issue may have
    /// neither assignee nor estimate.
    pub fn from_json(issue: &Json) -> (r: Issue)
        ensures
            r@ == spec_issue(*issue),
    {
        let assignee = match issue.get("assignee").as_text() {
            Some(text) => Some(text.to_owned()),
            None => None,
        };
        Issue {
            key: label(issue.get("key")),
            assignee,
            assignee_name: label(issue.get("assigneeName")),
            estimate: issue.get("estimateStatistic").get("statFieldValue").get("value").whole_i64(),
        }
    }

    /// Reads the issues off an issue list.
    pub fn list_from_json(list: &Json) -> (r: Vec<Issue>)
        ensures
            issue_views(r@) == spec_issue_list(*list),
    {
        let n = list.item_count();
        let mut out: Vec<Issue> = Vec::new();
        let mut i: usize = 0;
        while i < n
            invariant
                i <= n,
                n == list.spec_items().len(),
                issue_views(out@) == spec_issue_list(*list).take(i as int),
            decreases n - i,
        {
            let issue = Issue::from_json(list.item(i));
            let ghost before = issue_views(out@);
            let ghost view = issue@;
            out.push(issue);
            proof {
                assert(issue_views(out@) =~= before.push(view));
                assert(spec_issue_list(*list)[i as int] == view);
                assert(spec_issue_list(*list).take(i + 1) =~= spec_issue_list(*list).take(
                    i as int,
                ).push(view));
            }
            i += 1;
        }
        proof {
            assert(issue_views(out@) =~= spec_issue_list(*list));
        }
        out
    }
}

/// The tracker date that a value holds: that of its text, where it is a
/// string that chrono reads as a tracker date.
pub open spec fn spec_date_of(value: Json) -> Option<DateFields> {
    match value.spec_text() {
        Some(text) => spec_tracker_date(text, chrono_parsed(text, tracker_date_format())),
        None => None,
    }
}

/// The tracker date that a value holds; a `BadDate` where it holds none.
pub fn date_of(value: &Json) -> (r: Result<DateTime, ReportError>)
    ensures
        match r {
            Ok(d) => spec_date_of(*value) == Some(d@),
            Err(e) => spec_date_of(*value) is None && e == ReportError(
                ReportErrorReason::BadDate,
            ),
        },
{
    match value.as_text() {
        Some(text) => parse_tracker_date(text),
        None => Err(ReportError(ReportErrorReason::BadDate)),
    }
}

/// The dates under `startDate` and `endDate` of a sprint, where both are
/// tracker dates.
pub open spec fn spec_start_end_dates(sprint: Json) -> Option<(DateFields, DateFields)> {
    match (spec_date_of(sprint.spec_get("startDate"@)), spec_date_of(sprint.spec_get("endDate"@))) {
        (Some(start), Some(end)) => Some((start, end)),
        _ => None,
    }
}

/// The start and the end of a sprint; a `BadDate` unless both are tracker
/// dates.
pub fn get_start_end_dates(sprint: &Json) -> (r: Result<(DateTime, DateTime), ReportError>)
    ensures
        match r {
            Ok((start, end)) => spec_start_end_dates(*sprint) == Some((start@, end@)),
            Err(e) => spec_start_end_dates(*sprint) is None && e == ReportError(
                ReportErrorReason::BadDate,
            ),
        },
{
    let start = date_of(sprint.get("startDate"));
    let end = date_of(sprint.get("endDate"));
    match (start, end) {
        (Ok(s), Ok(e)) => Ok((s, e)),
        _ => Err(ReportError(ReportErrorReason::BadDate)),
    }
}

/// The estimate total under `key`: the whole number of seconds under its
/// `value`.
pub open spec fn spec_total(contents: Json, key: Seq<char>) -> Option<i64> {
    contents.spec_get(key).spec_get("value"@).spec_whole_i64()
}

/// The estimate totals of the completed issues, of the incomplete ones and
/// of all, in seconds, where all three are there.
pub open spec fn spec_totals(contents: Json) -> Option<(i64, i64, i64)> {
    match (
        spec_total(contents, "completedIssuesEstimateSum"@),
        spec_total(contents, "incompletedIssuesEstimateSum"@),
        spec_total(contents, "allIssuesEstimateSum"@),
    ) {
        (Some(c), Some(i), Some(t)) => Some((c, i, t)),
        _ => None,
    }
}

/// The estimate totals of the completed issues, of the incomplete ones and
/// of all, in seconds; a `ReportParsingError` unless all three are there as
/// numbers.
pub fn get_issues(contents: &Json) -> (r: Result<(i64, i64, i64), ReportError>)
    ensures
        match r {
            Ok(totals) => spec_totals(*contents) == Some(totals),
            Err(e) => spec_totals(*contents) is None && e == ReportError(
                ReportErrorReason::ReportParsingError,
            ),
        },
{
    let completed = contents.get("completedIssuesEstimateSum").get("value").whole_i64();
    let incomplete = contents.get("incompletedIssuesEstimateSum").get("value").whole_i64();
    let total = contents.get("allIssuesEstimateSum").get("value").whole_i64();
    match (completed, incomplete, total) {
        (Some(c), Some(i), Some(t)) => Ok((c, i, t)),
        _ => Err(ReportError(ReportErrorReason::ReportParsingError)),
    }
}

/// What a response of the tracker says, as far as it can be read: a
/// `BadDate` where a sprint date is no tracker date; else a
/// `ReportParsingError` where an estimate total is missing.
pub open spec fn spec_sprint_report(doc: Json) -> Result<SprintReportView, ReportError> {
    let sprint = doc.spec_get("sprint"@);
    let contents = doc.spec_get("contents"@);
    match spec_start_end_dates(sprint) {
        None => Err(ReportError(ReportErrorReason::BadDate)),
        Some((start, end)) => match spec_totals(contents) {
            None => Err(ReportError(ReportErrorReason::ReportParsingError)),
            Some((completed, incomplete, total)) => Ok(
                SprintReportView {
                    name: spec_label(sprint.spec_get("name"@)),
                    start,
                    end,
                    completed_seconds: completed,
                    incomplete_seconds: incomplete,
                    total_seconds: total,
                    completed_issues: spec_issue_list(contents.spec_get("completedIssues"@)),
                    incomplete_issues: spec_issue_list(contents.spec_get("incompletedIssues"@)),
                },
            ),
        },
    }
}

impl SprintReport {
    /// Reads a sprint report off a response of the tracker.
    pub fn from_json(doc: &Json) -> (r: Result<SprintReport, ReportError>)
        ensures
            match r {
                Ok(report) => spec_sprint_report(*doc) == Ok::<SprintReportView, ReportError>(
                    report@,
                ),
                Err(e) => spec_sprint_report(*doc) == Err::<SprintReportView, ReportError>(e),
            },
    {
        let sprint = doc.get("sprint");
        let contents = doc.get("contents");
        let (start, end) = match get_start_end_dates(sprint) {
            Ok(dates) => dates,
            Err(e) => {
                return Err(e);
            },
        };
        let (completed, incomplete, total) = match get_issues(contents) {
            Ok(totals) => totals,
            Err(e) => {
                return Err(e);
            },
        };
        Ok(
            SprintReport {
                name: label(sprint.get("name")),
                start,
                end,
                completed_seconds: completed,
                incomplete_seconds: incomplete,
                total_seconds: total,
                completed_issues: Issue::list_from_json(contents.get("completedIssues")),
                incomplete_issues: Issue::list_from_json(contents.get("incompletedIssues")),
            },
        )
    }
}

/// The issues of `issues` that are assigned to `user`, in their order.
pub open spec fn spec_issue_by_user(issues: Seq<IssueView>, user: Seq<char>) -> Seq<IssueView>
    decreases issues.len(),
{
    if issues.len() == 0 {
        Seq::empty()
    } else {
        let before = spec_issue_by_user(issues.drop_last(), user);
        if issues.last().assignee == Some(user) {
            before.push(issues.last())
        } else {
            before
        }
    }
}

/// The issues that a sequence of borrowed issues holds, as plain values.
pub open spec fn borrowed_issue_views(issues: Seq<&Issue>) -> Seq<IssueView> {
    issues.map_values(|i: &Issue| i@)
}

/// The issues of `issues` that are assigned to `user`, in their order. An
/// issue is assigned to `user` where its assignee is exactly that text.
pub fn issue_by_user<'a>(issues: &'a Vec<Issue>, user: &str) -> (r: Vec<&'a Issue>)
    ensures
        borrowed_issue_views(r@) == spec_issue_by_user(issue_views(issues@), user@),
{
    let mut out: Vec<&'a Issue> = Vec::new();
    let mut i: usize = 0;
    proof {
        assert(issue_views(issues@).take(0) =~= Seq::<IssueView>::empty());
        assert(borrowed_issue_views(out@) =~= Seq::<IssueView>::empty());
    }
    while i < issues.len()
        invariant
            i <= issues.len(),
            borrowed_issue_views(out@) == spec_issue_by_user(
                issue_views(issues@).take(i as int),
                user@,
            ),
        decreases issues.len() - i,
    {
        let issue = &issues[i];
        let mine = match &issue.assignee {
            Some(a) => same_text(a.as_str(), user),
            None => false,
        };
        proof {
            let upto = issue_views(issues@).take(i + 1);
            assert(upto.drop_last() =~= issue_views(issues@).take(i as int));
            assert(upto.last() == issue@);
            assert(mine == (issue@.assignee == Some(user@)));
        }
        if mine {
            let ghost before = borrowed_issue_views(out@);
            out.push(issue);
            proof {
                assert(borrowed_issue_views(out@) =~= before.push(issue@));
            }
        }
        i += 1;
    }
    proof {
        assert(issue_views(issues@).take(issues.len() as int) =~= issue_views(issues@));
    }
    out
}

/// The estimate of an issue in seconds: 0 where it has none.
pub open spec fn spec_estimate_or_zero(issue: IssueView) -> int {
    match issue.estimate {
        Some(seconds) => seconds as int,
        None => 0,
    }
}

/// The estimates of `issues` added up, in seconds.
pub open spec fn spec_estimate_seconds(issues: Seq<IssueView>) -> int
    decreases issues.len(),
{
    if issues.len() == 0 {
        0
    } else {
        spec_estimate_seconds(issues.drop_last()) + spec_estimate_or_zero(issues.last())
    }
}

/// The whole hours in the estimates of `issues` added up.
pub open spec fn spec_sum_of_issues(issues: Seq<IssueView>) -> int {
    spec_whole_hours(spec_estimate_seconds(issues))
}

/// The whole hours in the estimates of `issues` added up. An issue without
/// an estimate adds nothing.
pub fn sum_of_issues(issues: &Vec<&Issue>) -> (hours: i128)
    ensures
        hours == spec_sum_of_issues(borrowed_issue_views(issues@)),
        -share_limit() <= 2 * hours <= share_limit(),
{
    let mut total: i128 = 0;
    let mut i: usize = 0;
    proof {
        assert(borrowed_issue_views(issues@).take(0) =~= Seq::<IssueView>::empty());
    }
    while i < issues.len()
        invariant
            i <= issues.len(),
            total == spec_estimate_seconds(borrowed_issue_views(issues@).take(i as int)),
            -(i * 0x8000_0000_0000_0000) <= total <= i * 0x8000_0000_0000_0000,
        decreases issues.len() - i,
    {
        proof {
            let upto = borrowed_issue_views(issues@).take(i + 1);
            assert(upto.drop_last() =~= borrowed_issue_views(issues@).take(i as int));
            assert(upto.last() == issues@[i as int]@);
        }
        match issues[i].estimate {
            Some(seconds) => {
                total = total + seconds as i128;
            },
            None => {},
        }
        i += 1;
    }
    proof {
        assert(borrowed_issue_views(issues@).take(issues.len() as int) =~= borrowed_issue_views(
            issues@,
        ));
    }
    whole_hours(total)
}

/// The line of one issue: its key, the assignee's name, and where to browse
/// it on the tracker's host.
pub open spec fn spec_issue_line(issue: IssueView, host: Seq<char>) -> Seq<char> {
    "`"@ + issue.key + "` ("@ + issue.assignee_name + ") - http://"@ + host + "/browse/"@
        + issue.key + "\n"@
}

/// The lines of `issues`, one after the other.
pub open spec fn spec_issue_lines(issues: Seq<IssueView>, host: Seq<char>) -> Seq<char>
    decreases issues.len(),
{
    if issues.len() == 0 {
        Seq::empty()
    } else {
        spec_issue_lines(issues.drop_last(), host) + spec_issue_line(issues.last(), host)
    }
}

/// The listing of a group of issues: the group's name with the number of
/// issues, then a line for each issue, or the remark that there is nothing
/// in the group.
pub open spec fn spec_issue_breakdown(name: Seq<char>, issues: Seq<IssueView>, host: Seq<char>)
    -> Seq<char> {
    name + " ("@ + spec_decimal(issues.len() as int) + ")\n"@ + if issues.len() >= 1 {
        spec_issue_lines(issues, host)
    } else {
        "Nothing in "@ + name + " :(\n"@
    }
}

fn append_issue_line(out: &mut String, issue: &Issue, host: &str)
    ensures
        final(out)@ == old(out)@ + spec_issue_line(issue@, host@),
{
    out.append("`");
    out.append(issue.key.as_str());
    out.append("` (");
    out.append(issue.assignee_name.as_str());
    out.append(") - http://");
    out.append(host);
    out.append("/browse/");
    out.append(issue.key.as_str());
    out.append("\n");
    proof {
        assert(out@ =~= old(out)@ + spec_issue_line(issue@, host@));
    }
}

/// Appends the listing of a group of issues to `out`.
pub fn append_issue_breakdown(out: &mut String, name: &str, issues: &Vec<Issue>, host: &str)
    ensures
        final(out)@ == old(out)@ + spec_issue_breakdown(name@, issue_views(issues@), host@),
{
    out.append(name);
    out.append(" (");
    append_decimal(out, issues.len() as i128);
    out.append(")\n");
    let ghost head = out@;
    if issues.len() >= 1 {
        let mut i: usize = 0;
        proof {
            assert(issue_views(issues@).take(0) =~= Seq::<IssueView>::empty());
            assert(out@ =~= head + Seq::<char>::empty());
        }
        while i < issues.len()
            invariant
                i <= issues.len(),
                out@ == head + spec_issue_lines(issue_views(issues@).take(i as int), host@),
            decreases issues.len() - i,
        {
            let ghost before = out@;
            append_issue_line(out, &issues[i], host);
            proof {
                let upto = issue_views(issues@).take(i + 1);
                assert(upto.drop_last() =~= issue_views(issues@).take(i as int));
                assert(upto.last() == issues@[i as int]@);
                assert(out@ =~= head + spec_issue_lines(upto, host@));
            }
            i += 1;
        }
        proof {
            assert(issue_views(issues@).take(issues.len() as int) =~= issue_views(issues@));
        }
    } else {
        out.append("Nothing in ");
        out.append(name);
        out.append(" :(\n");
    }
    proof {
        assert(out@ =~= old(out)@ + spec_issue_breakdown(name@, issue_views(issues@), host@));
    }
}

/// The listing of a group of issues.
pub fn issue_breakdown(name: &str, issues: &Vec<Issue>, host: &str) -> (r: String)
    ensures
        r@ == spec_issue_breakdown(name@, issue_views(issues@), host@),
{
    let mut out = String::new();
    append_issue_breakdown(&mut out, name, issues, host);
    proof {
        assert(out@ =~= spec_issue_breakdown(name@, issue_views(issues@), host@));
    }
    out
}

/// The line of one user of the roster: the hours left, the hours in all, the
/// share of them that is done and the number of issues. A user with no issue
/// in the sprint has no line.
pub open spec fn spec_user_line(
    user: Seq<char>,
    completed: Seq<IssueView>,
    incomplete: Seq<IssueView>,
) -> Seq<char> {
    let done = spec_issue_by_user(completed, user);
    let left = spec_issue_by_user(incomplete, user);
    if done.len() + left.len() == 0 {
        Seq::empty()
    } else {
        let done_hours = spec_sum_of_issues(done);
        let left_hours = spec_sum_of_issues(left);
        user + " has "@ + spec_decimal(left_hours) + " hours left of "@ + spec_decimal(
            done_hours + left_hours,
        ) + " ("@ + spec_percent_text(done_hours, done_hours + left_hours) + ") for "@
            + spec_decimal((done.len() + left.len()) as int) + " issues\n"@
    }
}

/// The lines of the users of the roster, in its order.
pub open spec fn spec_sizing(
    users: Seq<Seq<char>>,
    completed: Seq<IssueView>,
    incomplete: Seq<IssueView>,
) -> Seq<char>
    decreases users.len(),
{
    if users.len() == 0 {
        Seq::empty()
    } else {
        spec_sizing(users.drop_last(), completed, incomplete) + spec_user_line(
            users.last(),
            completed,
            incomplete,
        )
    }
}

/// Appends the line of one user of the roster to `out`.
pub fn append_user_line(
    out: &mut String,
    user: &str,
    completed: &Vec<Issue>,
    incomplete: &Vec<Issue>,
)
    ensures
        final(out)@ == old(out)@ + spec_user_line(
            user@,
            issue_views(completed@),
            issue_views(incomplete@),
        ),
{
    let done = issue_by_user(completed, user);
    let left = issue_by_user(incomplete, user);
    if done.len() == 0 && left.len() == 0 {
        proof {
            assert(out@ =~= old(out)@ + Seq::<char>::empty());
        }
        return ;
    }
    let done_hours = sum_of_issues(&done);
    let left_hours = sum_of_issues(&left);
    out.append(user);
    out.append(" has ");
    append_decimal(out, left_hours);
    out.append(" hours left of ");
    append_decimal(out, done_hours + left_hours);
    out.append(" (");
    append_percent(out, done_hours, done_hours + left_hours);
    out.append(") for ");
    append_decimal(out, done.len() as i128 + left.len() as i128);
    out.append(" issues\n");
    proof {
        assert(out@ =~= old(out)@ + spec_user_line(
            user@,
            issue_views(completed@),
            issue_views(incomplete@),
        ));
    }
}

/// Appends the lines of the users of the roster to `out`.
pub fn append_sizing(
    out: &mut String,
    users: &Vec<String>,
    completed: &Vec<Issue>,
    incomplete: &Vec<Issue>,
)
    ensures
        final(out)@ == old(out)@ + spec_sizing(
            texts(users@),
            issue_views(completed@),
            issue_views(incomplete@),
        ),
{
    let mut i: usize = 0;
    proof {
        assert(texts(users@).take(0) =~= Seq::<Seq<char>>::empty());
        assert(out@ =~= old(out)@ + Seq::<char>::empty());
    }
    while i < users.len()
        invariant
            i <= users.len(),
            out@ == old(out)@ + spec_sizing(
                texts(users@).take(i as int),
                issue_views(completed@),
                issue_views(incomplete@),
            ),
        decreases users.len() - i,
    {
        append_user_line(out, users[i].as_str(), completed, incomplete);
        proof {
            let upto = texts(users@).take(i + 1);
            assert(upto.drop_last() =~= texts(users@).take(i as int));
            assert(upto.last() == users@[i as int]@);
            assert(out@ =~= old(out)@ + spec_sizing(
                upto,
                issue_views(completed@),
                issue_views(incomplete@),
            ));
        }
        i += 1;
    }
    proof {
        assert(texts(users@).take(users.len() as int) =~= texts(users@));
    }
}

/// The line that sums a group up: its hours, their share in the hours of the
/// sprint, and the number of its issues.
pub open spec fn spec_summary_line(name: Seq<char>, seconds: int, total_seconds: int, count: int)
    -> Seq<char> {
    name + ": "@ + spec_decimal(spec_whole_hours(seconds)) + "h ("@ + spec_percent_text(
        spec_whole_hours(seconds),
        spec_whole_hours(total_seconds),
    ) + "), "@ + spec_decimal(count) + " Issues\n"@
}

/// Appends the line that sums a group up to `out`.
pub fn append_summary_line(
    out: &mut String,
    name: &str,
    seconds: i64,
    total_seconds: i64,
    count: usize,
)
    ensures
        final(out)@ == old(out)@ + spec_summary_line(
            name@,
            seconds as int,
            total_seconds as int,
            count as int,
        ),
{
    let hours = whole_hours(seconds as i128);
    let total_hours = whole_hours(total_seconds as i128);
    out.append(name);
    out.append(": ");
    append_decimal(out, hours);
    out.append("h (");
    append_percent(out, hours, total_hours);
    out.append("), ");
    append_decimal(out, count as i128);
    out.append(" Issues\n");
    proof {
        assert(out@ =~= old(out)@ + spec_summary_line(
            name@,
            seconds as int,
            total_seconds as int,
            count as int,
        ));
    }
}

/// The head of a report: the sprint's name, its start, and in how many days
/// it ends, counted from the time stamp `reference`.
pub open spec fn spec_header(report: SprintReportView, reference: int) -> Seq<char> {
    "Report for Sprint: "@ + report.name + "\n"@ + "Sprint Start on: "@ + spec_pretty_date(
        report.start,
    ) + "\n"@ + "Sprint Ends in: "@ + spec_decimal(
        spec_days_between(reference, report.end.timestamp as int),
    ) + " day(s) on "@ + spec_pretty_date(report.end) + "\n"@
}

/// Appends the head of a report to `out`.
pub fn append_header(out: &mut String, report: &SprintReport, reference: i64)
    ensures
        final(out)@ == old(out)@ + spec_header(report@, reference as int),
{
    out.append("Report for Sprint: ");
    out.append(report.name.as_str());
    out.append("\n");
    out.append("Sprint Start on: ");
    append_pretty_date(out, &report.start);
    out.append("\n");
    out.append("Sprint Ends in: ");
    append_decimal(out, days_between(reference, report.end.timestamp()) as i128);
    out.append(" day(s) on ");
    append_pretty_date(out, &report.end);
    out.append("\n");
    proof {
        assert(out@ =~= old(out)@ + spec_header(report@, reference as int));
    }
}

/// The text of a report: the head, the two lines that sum the groups up,
/// the lines of the users of the roster, and the listings of the two
/// groups, with an empty line between the parts.
pub open spec fn spec_report_text(
    report: SprintReportView,
    users: Seq<Seq<char>>,
    host: Seq<char>,
    reference: int,
) -> Seq<char> {
    spec_header(report, reference) + spec_summary_line(
        "Completed"@,
        report.completed_seconds as int,
        report.total_seconds as int,
        report.completed_issues.len() as int,
    ) + spec_summary_line(
        "Incomplete"@,
        report.incomplete_seconds as int,
        report.total_seconds as int,
        report.incomplete_issues.len() as int,
    ) + "\n"@ + "Sprint Sizing:\n"@ + spec_sizing(
        users,
        report.completed_issues,
        report.incomplete_issues,
    ) + "\n"@ + spec_issue_breakdown("Completed"@, report.completed_issues, host) + "\n"@
        + spec_issue_breakdown("Incomplete"@, report.incomplete_issues, host)
}

/// Writes the report for a reader. `users` is the roster, `host` the
/// tracker's host, and `reference` the time stamp from which the days to
/// the sprint's end are counted.
pub fn render_report(report: &SprintReport, users: &Vec<String>, host: &str, reference: i64) -> (r:
    String)
    ensures
        r@ == spec_report_text(report@, texts(users@), host@, reference as int),
{
    let mut out = String::new();
    append_header(&mut out, report, reference);
    append_summary_line(
        &mut out,
        "Completed",
        report.completed_seconds,
        report.total_seconds,
        report.completed_issues.len(),
    );
    append_summary_line(
        &mut out,
        "Incomplete",
        report.incomplete_seconds,
        report.total_seconds,
        report.incomplete_issues.len(),
    );
    out.append("\n");
    out.append("Sprint Sizing:\n");
    append_sizing(&mut out, users, &report.completed_issues, &report.incomplete_issues);
    out.append("\n");
    append_issue_breakdown(&mut out, "Completed", &report.completed_issues, host);
    out.append("\n");
    append_issue_breakdown(&mut out, "Incomplete", &report.incomplete_issues, host);
    proof {
        assert(out@ =~= spec_report_text(report@, texts(users@), host@, reference as int));
    }
    out
}

/// No issue of `issues` is assigned to `user`.
pub open spec fn spec_none_assigned(issues: Seq<IssueView>, user: Seq<char>) -> bool {
    forall|i: int| 0 <= i < issues.len() ==> (#[trigger] issues[i]).assignee != Some(user)
}

/// Where no issue is assigned to a user, the user has none of the issues.
pub proof fn lemma_none_assigned_none_selected(issues: Seq<IssueView>, user: Seq<char>)
    requires
        spec_none_assigned(issues, user),
    ensures
        spec_issue_by_user(issues, user) == Seq::<IssueView>::empty(),
    decreases issues.len(),
{
    if issues.len() > 0 {
        assert(issues.last() == issues[issues.len() - 1]);
        assert forall|i: int| 0 <= i < issues.drop_last().len() implies (
        #[trigger] issues.drop_last()[i]).assignee != Some(user) by {
            assert(issues.drop_last()[i] == issues[i]);
        }
        lemma_none_assigned_none_selected(issues.drop_last(), user);
    }
}

/// Where an issue is assigned to a user, the user has at least one of the
/// issues.
pub proof fn lemma_assigned_is_selected(issues: Seq<IssueView>, user: Seq<char>, i: int)
    requires
        0 <= i < issues.len(),
        issues[i].assignee == Some(user),
    ensures
        spec_issue_by_user(issues, user).len() >= 1,
    decreases issues.len(),
{
    if i < issues.len() - 1 {
        assert(issues.drop_last()[i] == issues[i]);
        lemma_assigned_is_selected(issues.drop_last(), user, i);
    }
}

/// A user of the roster to whom no issue of the sprint is assigned has no
/// line among the lines of the users.
pub proof fn lemma_user_without_issues_has_no_line(
    user: Seq<char>,
    completed: Seq<IssueView>,
    incomplete: Seq<IssueView>,
)
    requires
        spec_none_assigned(completed, user),
        spec_none_assigned(incomplete, user),
    ensures
        spec_user_line(user, completed, incomplete) == Seq::<char>::empty(),
{
    lemma_none_assigned_none_selected(completed, user);
    lemma_none_assigned_none_selected(incomplete, user);
}

/// A user with issues that are not completed, and none that is, has a line.
/// It gives the hours of those issues as the hours left and as the hours in
/// all, and the share done as 0.0%, or as N/A where the hours are 0.
pub proof fn lemma_user_with_only_incomplete_issues(
    user: Seq<char>,
    completed: Seq<IssueView>,
    incomplete: Seq<IssueView>,
    i: int,
)
    requires
        spec_none_assigned(completed, user),
        0 <= i < incomplete.len(),
        incomplete[i].assignee == Some(user),
    ensures
        spec_user_line(user, completed, incomplete) == {
            let left = spec_issue_by_user(incomplete, user);
            let hours = spec_sum_of_issues(left);
            user + " has "@ + spec_decimal(hours) + " hours left of "@ + spec_decimal(hours)
                + " ("@ + (if hours == 0 {
                "N/A"@
            } else {
                seq!['0', '.', '0'] + "%"@
            }) + ") for "@ + spec_decimal(left.len() as int) + " issues\n"@
        },
{
    lemma_none_assigned_none_selected(completed, user);
    lemma_assigned_is_selected(incomplete, user, i);
    let left = spec_issue_by_user(incomplete, user);
    let hours = spec_sum_of_issues(left);
    assert(spec_estimate_seconds(Seq::<IssueView>::empty()) == 0);
    assert(spec_sum_of_issues(Seq::<IssueView>::empty()) == 0);
    if hours != 0 {
        let d = spec_magnitude(hours) as int;
        assert(0int % d == 0 && 0int / d == 0) by (nonlinear_arith)
            requires
                d > 0,
        ;
        assert(spec_percent_tenths(0, hours) == Some(0int));
        assert(spec_tenths_text(0) =~= seq!['0', '.', '0']);
    }
}

/// An issue whose JSON has no member `estimateStatistic` has no estimate.
/// It is an issue all the same, and it adds nothing to the estimates of a
/// group that it joins.
pub proof fn lemma_missing_estimate_adds_nothing(issue: Json, others: Seq<IssueView>)
    requires
        issue.spec_get("estimateStatistic"@) == Json::Null,
    ensures
        spec_issue(issue).estimate is None,
        spec_estimate_seconds(others.push(spec_issue(issue))) == spec_estimate_seconds(others),
        spec_sum_of_issues(others.push(spec_issue(issue))) == spec_sum_of_issues(others),
{
    let with = others.push(spec_issue(issue));
    assert(with.drop_last() =~= others);
    assert(with.last() == spec_issue(issue));
}

/// The listing of a group without issues says that there is nothing in the
/// group.
pub proof fn lemma_empty_group_says_nothing(name: Seq<char>, host: Seq<char>)
    ensures
        spec_issue_breakdown(name, Seq::<IssueView>::empty(), host) == name + " ("@ + seq!['0']
            + ")\n"@ + ("Nothing in "@ + name + " :(\n"@),
{
}

} // verus!
