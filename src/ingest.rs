//! The ingestion gateway: which submission events are processed, which
//! linked files may be fetched, and how rejections are reported back.

use vstd::prelude::*;

use crate::actions::{ContextPayload, IssueCommentEventAction, IssueEventAction, IssueState, Issue};
use crate::artifacts::{format_args_of, format_arguments};
use crate::store::{database_dir_of, database_directory, merged_file, merged_file_of};
use crate::version::{semver_matches, BenchVersion, NO_HIGH_LEVEL_REQUIREMENT};
use crate::text::{
    ends_with, has_prefix, has_suffix, joined, owned, push_decimal, decimal, starts_with, texts,
};

verus! {

/// Issue-tracker attachments, one of the hosting prefixes from which result
/// files may be fetched.
pub const GITHUB_PREFIX: &'static str = "https://github.com/";

/// Submission bucket in the us-east-1 object-storage region.
pub const US_EAST_PREFIX: &'static str = "https://iocost-submit-us-east-1.s3.us-east-1.amazonaws.com/";

/// Submission bucket in the eu-north-1 object-storage region.
pub const EU_NORTH_PREFIX: &'static str = "https://iocost-submit.s3.eu-north-1.amazonaws.com/";

/// The extension every result file carries.
pub const RESULT_EXTENSION: &'static str = ".json.gz";

/// The reason recorded for a link that is never fetched.
pub const NOT_ALLOWLISTED: &'static str = "not allow-listed";

/// Separates the entries of the rejection report.
pub const REPORT_SEPARATOR: &'static str = "\n\n";

/// `url` starts with one of the trusted hosting prefixes.
pub open spec fn allowlisted(url: Seq<char>) -> bool {
    ||| starts_with(url, GITHUB_PREFIX@)
    ||| starts_with(url, US_EAST_PREFIX@)
    ||| starts_with(url, EU_NORTH_PREFIX@)
}

/// `url` may be fetched: trusted prefix and result-file extension.
pub open spec fn url_acceptable(url: Seq<char>) -> bool {
    allowlisted(url) && ends_with(url, RESULT_EXTENSION@)
}

/// The links that may be fetched, in order.
pub open spec fn accepted_urls(links: Seq<Seq<char>>) -> Seq<Seq<char>>
    decreases links.len(),
{
    if links.len() == 0 {
        seq![]
    } else if url_acceptable(links.last()) {
        accepted_urls(links.drop_last()).push(links.last())
    } else {
        accepted_urls(links.drop_last())
    }
}

/// The links that are refused, in order.
pub open spec fn refused_urls(links: Seq<Seq<char>>) -> Seq<Seq<char>>
    decreases links.len(),
{
    if links.len() == 0 {
        seq![]
    } else if url_acceptable(links.last()) {
        refused_urls(links.drop_last())
    } else {
        refused_urls(links.drop_last()).push(links.last())
    }
}

/// The links found in a free text, in order of appearance.
pub uninterp spec fn links_in(body: Seq<char>) -> Seq<Seq<char>>;

/// Relies on `linkify::LinkFinder::links` with the default finder (URLs that
/// have a scheme, and e-mail addresses): the text of each link it yields, in
/// order. What it finds depends on the text alone.
#[verifier::external_body]
fn find_links(body: &str) -> (r: Vec<String>)
    ensures
        texts(r@) == links_in(body@),
{
    linkify::LinkFinder::new().links(body).map(|l| l.as_str().to_string()).collect()
}

/// Returns `true` if the URL in `link` starts with a trusted hosting prefix.
pub fn is_url_allowlisted(link: &str) -> (r: bool)
    ensures
        r == allowlisted(link@),
{
    has_prefix(link, GITHUB_PREFIX) || has_prefix(link, US_EAST_PREFIX) || has_prefix(
        link,
        EU_NORTH_PREFIX,
    )
}

/// Whether `link` may be fetched.
pub fn is_url_acceptable(link: &str) -> (r: bool)
    ensures
        r == url_acceptable(link@),
{
    is_url_allowlisted(link) && has_suffix(link, RESULT_EXTENSION)
}

/// A link or file that was not taken into the database, and why.
pub struct Rejection {
    pub url: String,
    pub reason: String,
}

/// The links of one submission, split into those to fetch and those refused.
pub struct UrlTriage {
    pub accepted: Vec<String>,
    pub rejected: Vec<Rejection>,
}

/// The refused links that a list of rejections names.
pub open spec fn rejected_urls(r: Seq<Rejection>) -> Seq<Seq<char>> {
    r.map_values(|x: Rejection| x.url@)
}

/// Splits links into those that may be fetched and those that are refused,
/// keeping their order; each refused link carries the reason
/// [`NOT_ALLOWLISTED`].
pub fn classify_links(links: &Vec<String>) -> (t: UrlTriage)
    ensures
        texts(t.accepted@) == accepted_urls(texts(links@)),
        rejected_urls(t.rejected@) == refused_urls(texts(links@)),
        forall|k: int| 0 <= k < t.rejected@.len() ==> t.rejected@[k].reason@ == NOT_ALLOWLISTED@,
{
    let mut accepted: Vec<String> = Vec::new();
    let mut rejected: Vec<Rejection> = Vec::new();
    let n = links.len();
    let mut i: usize = 0;
    while i < n
        invariant
            i <= n,
            n == links@.len(),
            texts(accepted@) == accepted_urls(texts(links@.subrange(0, i as int))),
            rejected_urls(rejected@) == refused_urls(texts(links@.subrange(0, i as int))),
            forall|k: int| 0 <= k < rejected@.len() ==> rejected@[k].reason@ == NOT_ALLOWLISTED@,
        decreases n - i,
    {
        let link = &links[i];
        let ghost before = texts(links@.subrange(0, i as int));
        assert(texts(links@.subrange(0, i + 1)).drop_last() =~= before);
        assert(texts(links@.subrange(0, i + 1)).last() == link@);
        if is_url_acceptable(link.as_str()) {
            accepted.push(link.clone());
            assert(texts(accepted@) =~= accepted_urls(before).push(link@));
        } else {
            rejected.push(Rejection { url: link.clone(), reason: owned(NOT_ALLOWLISTED) });
            assert(rejected_urls(rejected@) =~= refused_urls(before).push(link@));
        }
        i += 1;
    }
    assert(links@.subrange(0, n as int) =~= links@);
    UrlTriage { accepted, rejected }
}

/// Finds the links in a submission body and splits them as
/// [`classify_links`] does.
pub fn triage_body(body: &str) -> (t: UrlTriage)
    ensures
        texts(t.accepted@) == accepted_urls(links_in(body@)),
        rejected_urls(t.rejected@) == refused_urls(links_in(body@)),
        forall|k: int| 0 <= k < t.rejected@.len() ==> t.rejected@[k].reason@ == NOT_ALLOWLISTED@,
{
    let links = find_links(body);
    classify_links(&links)
}

/// A link that may not be fetched is never among the links to fetch, and is
/// reported among the refused ones.
pub proof fn lemma_refused_never_fetched(links: Seq<Seq<char>>, url: Seq<char>)
    requires
        links.contains(url),
        !url_acceptable(url),
    ensures
        !accepted_urls(links).contains(url),
        refused_urls(links).contains(url),
    decreases links.len(),
{
    lemma_accepted_are_acceptable(links);
    if links.last() == url {
        assert(refused_urls(links).last() == url);
    } else {
        let k = choose|k: int| 0 <= k < links.len() && links[k] == url;
        assert(links.drop_last()[k] == url);
        lemma_refused_never_fetched(links.drop_last(), url);
        let j = choose|j: int| 0 <= j < refused_urls(links.drop_last()).len()
            && refused_urls(links.drop_last())[j] == url;
        assert(refused_urls(links)[j] == url);
    }
}

/// Every link to fetch passes the allow-list and extension test.
pub proof fn lemma_accepted_are_acceptable(links: Seq<Seq<char>>)
    ensures
        forall|k: int|
            0 <= k < accepted_urls(links).len() ==> url_acceptable(#[trigger] accepted_urls(links)[k]),
    decreases links.len(),
{
    if links.len() > 0 {
        let prev = accepted_urls(links.drop_last());
        lemma_accepted_are_acceptable(links.drop_last());
        assert forall|k: int| 0 <= k < accepted_urls(links).len() implies url_acceptable(
            #[trigger] accepted_urls(links)[k],
        ) by {
            if k < prev.len() {
                assert(accepted_urls(links)[k] == prev[k]);
            }
        }
    }
}

/// Why a submission event is not processed.
#[derive(Debug, Clone, Copy, PartialEq, Eq, Structural)]
pub enum IngestError {
    /// The event kind or action is not one this gateway handles.
    UnsupportedEvent,
}

/// The issue an event is about, if it is about one.
pub open spec fn event_issue(p: ContextPayload) -> Option<Issue> {
    match p {
        ContextPayload::Issues { event } => Some(event.issue),
        ContextPayload::IssueComment { event } => Some(event.issue),
        _ => None,
    }
}

/// The issue is locked or not open: the event is ignored.
pub open spec fn issue_closed_or_locked(i: Issue) -> bool {
    i.locked || !(i.state is Open)
}

/// The event is a no-op: its issue is locked or not open.
pub open spec fn event_ignored(p: ContextPayload) -> bool {
    match event_issue(p) {
        Some(i) => issue_closed_or_locked(i),
        None => false,
    }
}

/// The event is of a kind, or has an action, that is not handled.
pub open spec fn event_unsupported(p: ContextPayload) -> bool {
    !event_ignored(p) && match p {
        ContextPayload::Issues { event } => !(event.action is Opened || event.action is Edited),
        ContextPayload::IssueComment { event } => !(event.action is Created || event.action
            is Edited),
        _ => true,
    }
}

/// The free text to scan: the comment body for comment events, the issue
/// body for issue events.
pub open spec fn event_text(p: ContextPayload) -> Seq<char> {
    match p {
        ContextPayload::Issues { event } => event.issue.body@,
        ContextPayload::IssueComment { event } => event.comment.body@,
        _ => seq![],
    }
}

fn issue_inactive(i: &Issue) -> (r: bool)
    ensures
        r == issue_closed_or_locked(*i),
{
    i.locked || !matches!(i.state, IssueState::Open)
}

/// Decides what to do with a submission event: `Ok(None)` when it is a
/// no-op, `Ok(Some(text))` with the text to scan for links, or
/// `UnsupportedEvent`.
pub fn submission_body(payload: &ContextPayload) -> (r: Result<Option<String>, IngestError>)
    ensures
        r matches Ok(None) <==> event_ignored(*payload),
        r is Err <==> event_unsupported(*payload),
        r matches Ok(Some(b)) ==> b@ == event_text(*payload),
{
    match payload {
        ContextPayload::Issues { event } => {
            if issue_inactive(&event.issue) {
                return Ok(None);
            }
            match event.action {
                IssueEventAction::Opened | IssueEventAction::Edited => Ok(
                    Some(event.issue.body.clone()),
                ),
                _ => Err(IngestError::UnsupportedEvent),
            }
        },
        ContextPayload::IssueComment { event } => {
            if issue_inactive(&event.issue) {
                return Ok(None);
            }
            match event.action {
                IssueCommentEventAction::Created | IssueCommentEventAction::Edited => Ok(
                    Some(event.comment.body.clone()),
                ),
                _ => Err(IngestError::UnsupportedEvent),
            }
        },
        _ => Err(IngestError::UnsupportedEvent),
    }
}

/// One entry of the rejection report.
pub open spec fn rejection_entry(r: Rejection) -> Seq<char> {
    "File "@ + r.url@ + " failed validation: \n\n"@ + r.reason@
}

/// The entries of the rejection report, in order.
pub open spec fn rejection_entries(rs: Seq<Rejection>) -> Seq<Seq<char>> {
    rs.map_values(|r: Rejection| rejection_entry(r))
}

/// The text of the single comment that reports all rejections.
pub open spec fn report_text(rs: Seq<Rejection>) -> Seq<char> {
    joined(rejection_entries(rs), REPORT_SEPARATOR@)
}

/// The comment to post on the originating issue: `None` when nothing was
/// rejected, else every rejection with its URL and reason, in one text.
pub fn rejection_comment(rejected: &Vec<Rejection>) -> (r: Option<String>)
    ensures
        r is None <==> rejected@.len() == 0,
        r matches Some(c) ==> c@ == report_text(rejected@),
{
    let n = rejected.len();
    if n == 0 {
        return None;
    }
    let mut text = String::new();
    let mut i: usize = 0;
    while i < n
        invariant
            i <= n,
            n == rejected@.len(),
            text@ == joined(rejection_entries(rejected@.subrange(0, i as int)), REPORT_SEPARATOR@),
        decreases n - i,
    {
        let ghost before = rejection_entries(rejected@.subrange(0, i as int));
        let ghost entries = rejection_entries(rejected@.subrange(0, i + 1));
        assert(entries.drop_last() =~= before);
        if i > 0 {
            text.append(REPORT_SEPARATOR);
        }
        let r = &rejected[i];
        text.append("File ");
        text.append(r.url.as_str());
        text.append(" failed validation: \n\n");
        text.append(r.reason.as_str());
        assert(entries.last() == rejection_entry(rejected@[i as int]));
        if i == 0 {
            assert(text@ =~= joined(entries, REPORT_SEPARATOR@));
        } else {
            assert(text@ =~= joined(entries, REPORT_SEPARATOR@));
        }
        i += 1;
    }
    assert(rejected@.subrange(0, n as int) =~= rejected@);
    Some(text)
}

/// The new files of one (version, model) bucket that a submission brought.
pub struct HighLevel {
    pub version: String,
    pub model_name: String,
    pub new_files: u64,
}

impl HighLevel {
    /// A bucket with no new file yet.
    pub fn new(version: &str, model_name: &str) -> (r: Self)
        ensures
            r.version@ == version@,
            r.model_name@ == model_name@,
            r.new_files == 0,
    {
        HighLevel { version: owned(version), model_name: owned(model_name), new_files: 0 }
    }

    /// Counts one more new file.
    pub fn increment(&mut self)
        requires
            old(self).new_files < u64::MAX,
        ensures
            final(self).new_files == old(self).new_files + 1,
            final(self).version == old(self).version,
            final(self).model_name == old(self).model_name,
    {
        self.new_files = self.new_files + 1;
    }

    /// The bucket is the one of `version` and `model`.
    pub open spec fn keyed(&self, version: Seq<char>, model: Seq<char>) -> bool {
        self.version@ == version && self.model_name@ == model
    }
}

/// No two buckets share a (version, model) key.
pub open spec fn distinct_buckets(g: Seq<HighLevel>) -> bool {
    forall|i: int, j: int|
        0 <= i < j < g.len() ==> !(#[trigger] g[i]).keyed(
            (#[trigger] g[j]).version@,
            g[j].model_name@,
        )
}

/// Counts one new file for the bucket of `version` and `model`, creating
/// the bucket on its first file. Returns the bucket's index.
pub fn record_new_file(groups: &mut Vec<HighLevel>, version: &str, model_name: &str) -> (k: usize)
    requires
        distinct_buckets(old(groups)@),
        forall|j: int| 0 <= j < old(groups)@.len() ==> old(groups)@[j].new_files < u64::MAX,
    ensures
        distinct_buckets(final(groups)@),
        k <= old(groups)@.len(),
        k < final(groups)@.len(),
        final(groups)@[k as int].keyed(version@, model_name@),
        k < old(groups)@.len() ==> {
            &&& old(groups)@[k as int].keyed(version@, model_name@)
            &&& final(groups)@ == old(groups)@.update(
                k as int,
                HighLevel { new_files: (old(groups)@[k as int].new_files + 1) as u64, ..old(groups)@[k as int] },
            )
        },
        k == old(groups)@.len() ==> {
            &&& forall|j: int| 0 <= j < old(groups)@.len() ==> !old(groups)@[j].keyed(version@, model_name@)
            &&& final(groups)@.len() == old(groups)@.len() + 1
            &&& final(groups)@.drop_last() == old(groups)@
            &&& final(groups)@[k as int].new_files == 1
        },
{
    let n = groups.len();
    let mut i: usize = 0;
    while i < n
        invariant
            i <= n,
            n == groups@.len(),
            groups@ == old(groups)@,
            distinct_buckets(groups@),
            forall|j: int| 0 <= j < groups@.len() ==> groups@[j].new_files < u64::MAX,
            forall|j: int| 0 <= j < i ==> !groups@[j].keyed(version@, model_name@),
        decreases n - i,
    {
        if crate::text::same_text(groups[i].version.as_str(), version)
            && crate::text::same_text(groups[i].model_name.as_str(), model_name) {
            let ghost prev = groups@;
            groups[i].increment();
            assert(groups@ =~= prev.update(
                i as int,
                HighLevel { new_files: (prev[i as int].new_files + 1) as u64, ..prev[i as int] },
            ));
            assert(forall|j: int| 0 <= j < groups@.len() ==> groups@[j].version == prev[j].version
                && groups@[j].model_name == prev[j].model_name);
            return i;
        }
        i += 1;
    }
    let mut g = HighLevel::new(version, model_name);
    g.increment();
    let ghost prev = groups@;
    groups.push(g);
    assert(groups@.drop_last() =~= prev);
    assert(forall|j: int| 0 <= j < n ==> groups@[j] == prev[j]);
    n
}

/// What the engine runs to summarize a bucket at a high level: a fresh
/// merge of the bucket's directory into its merged file, then a format.
pub struct HighLevelRequest {
    pub merge_directory: String,
    pub merged_path: String,
    pub format_args: Vec<String>,
}

impl HighLevel {
    /// The runs that produce the high-level summary of this bucket, or
    /// `None` when the engine predates it: the summary is then empty.
    pub fn format_high_level(&self, engine: &BenchVersion) -> (r: Option<HighLevelRequest>)
        ensures
            r is None <==> semver_matches(NO_HIGH_LEVEL_REQUIREMENT@, engine.semver@),
            r matches Some(q) ==> {
                &&& q.merge_directory@ == database_dir_of(self.version@, self.model_name@)
                &&& q.merged_path@ == merged_file_of(self.version@, self.model_name@, None)
                &&& texts(q.format_args@) == format_args_of(
                    q.merged_path@,
                    Some("iocost-tune:high-level"@),
                )
            },
    {
        if !engine.supports_high_level() {
            return None;
        }
        let merged_path = merged_file(self.version.as_str(), self.model_name.as_str(), None);
        let format_args = format_arguments(merged_path.as_str(), Some("iocost-tune:high-level"));
        Some(HighLevelRequest {
            merge_directory: database_directory(self.version.as_str(), self.model_name.as_str()),
            merged_path,
            format_args,
        })
    }

    /// `[<model> (<version>)] <n> new files` and the high-level summary on
    /// the next line.
    pub open spec fn summary_text(&self, high_level: Seq<char>) -> Seq<char> {
        "["@ + self.model_name@ + " ("@ + self.version@ + ")] "@ + decimal(self.new_files as nat)
            + " new files\n"@ + high_level
    }

    /// The line of the commit description for this bucket.
    pub fn summary_line(&self, high_level: &str) -> (r: String)
        ensures
            r@ == self.summary_text(high_level@),
    {
        let mut s = owned("[");
        s.append(self.model_name.as_str());
        s.append(" (");
        s.append(self.version.as_str());
        s.append(")] ");
        push_decimal(&mut s, self.new_files);
        s.append(" new files\n");
        s.append(high_level);
        s
    }
}

/// The message of the commit that brings a submission's files in.
pub open spec fn commit_text(issue_id: u64, lines: Seq<Seq<char>>) -> Seq<char> {
    "Automated update from issue "@ + decimal(issue_id as nat) + "\n\nCloses #"@ + decimal(
        issue_id as nat,
    ) + "\n\n"@ + joined(lines, "\n"@)
}

/// The commit message: a title naming the issue, then one line per bucket
/// that received new files.
pub fn commit_message(issue_id: u64, lines: &Vec<String>) -> (r: String)
    ensures
        r@ == commit_text(issue_id, texts(lines@)),
{
    let mut s = owned("Automated update from issue ");
    push_decimal(&mut s, issue_id);
    s.append("\n\nCloses #");
    push_decimal(&mut s, issue_id);
    s.append("\n\n");
    let ghost head = s@;
    let n = lines.len();
    let mut i: usize = 0;
    while i < n
        invariant
            i <= n,
            n == lines@.len(),
            s@ == head + joined(texts(lines@.subrange(0, i as int)), "\n"@),
        decreases n - i,
    {
        let ghost parts = texts(lines@.subrange(0, i + 1));
        assert(parts.drop_last() =~= texts(lines@.subrange(0, i as int)));
        if i > 0 {
            s.append("\n");
        }
        s.append(lines[i].as_str());
        assert(s@ =~= head + joined(parts, "\n"@));
        i += 1;
    }
    assert(lines@.subrange(0, n as int) =~= lines@);
    s
}

/// The branch that carries the commit of a submission.
pub fn branch_name(issue_id: u64) -> (r: String)
    ensures
        r@ == "iocost-bot/"@ + decimal(issue_id as nat),
{
    let mut s = owned("iocost-bot/");
    push_decimal(&mut s, issue_id);
    s
}

/// `after` is `before` with one more new file counted for the bucket of
/// `version` and `model`, which is created on its first file.
pub open spec fn groups_recorded(
    before: Seq<HighLevel>,
    after: Seq<HighLevel>,
    version: Seq<char>,
    model: Seq<char>,
) -> bool {
    ||| exists|k: int|
        0 <= k < before.len() && (#[trigger] before[k]).keyed(version, model) && after
            == before.update(k, HighLevel { new_files: (before[k].new_files + 1) as u64, ..before[k] })
    ||| {
        &&& forall|j: int| 0 <= j < before.len() ==> !(#[trigger] before[j]).keyed(version, model)
        &&& after.len() == before.len() + 1
        &&& after.drop_last() == before
        &&& after.last().keyed(version, model)
        &&& after.last().new_files == 1
    }
}

/// How the fetch of one URL ended.
pub enum FetchOutcome {
    /// The file was stored and validated, into the bucket of `version` and
    /// `model_name`.
    Stored { version: String, model_name: String },
    /// The file was not taken, for `reason`.
    Failed { reason: String },
}

/// What the ingestion of a submission does next.
pub enum IngestAction {
    /// Download, store, read and validate the file at this URL, then report
    /// the outcome.
    Fetch(String),
    /// Post this text on the issue, once.
    Comment(String),
    /// Commit the new files of the buckets recorded; ingestion ends.
    Commit,
    /// Nothing is left to do.
    Done,
}

/// The state of the ingestion of one submission: the URLs to fetch, how
/// many were fetched, the rejections so far and the buckets that received
/// new files.
pub struct IngestSession {
    to_fetch: Vec<String>,
    fetched: usize,
    rejected: Vec<Rejection>,
    groups: Vec<HighLevel>,
    reported: bool,
}

impl IngestSession {
    /// Only allow-listed URLs are ever queued; bucket keys are distinct.
    #[verifier::type_invariant]
    spec fn inv(&self) -> bool {
        &&& self.fetched <= self.to_fetch@.len()
        &&& forall|k: int| 0 <= k < self.to_fetch@.len() ==> url_acceptable(#[trigger] self.to_fetch@[k]@)
        &&& distinct_buckets(self.groups@)
        &&& forall|j: int| 0 <= j < self.groups@.len() ==> (#[trigger] self.groups@[j]).new_files <= self.fetched
    }

    /// The URLs to fetch, in order.
    pub closed spec fn queued(&self) -> Seq<Seq<char>> {
        texts(self.to_fetch@)
    }

    /// How many of them were fetched.
    pub closed spec fn fetched_count(&self) -> nat {
        self.fetched as nat
    }

    /// The rejections so far.
    pub closed spec fn rejections(&self) -> Seq<Rejection> {
        self.rejected@
    }

    /// The buckets that received new files.
    pub closed spec fn buckets(&self) -> Seq<HighLevel> {
        self.groups@
    }

    /// The rejection comment was posted.
    pub closed spec fn was_reported(&self) -> bool {
        self.reported
    }

    /// Starts the ingestion of a submission whose text is `body`: its
    /// allow-listed links are queued, the others rejected.
    pub fn start(body: &str) -> (s: Self)
        ensures
            s.queued() == accepted_urls(links_in(body@)),
            s.fetched_count() == 0,
            rejected_urls(s.rejections()) == refused_urls(links_in(body@)),
            forall|k: int|
                0 <= k < s.rejections().len() ==> (#[trigger] s.rejections()[k]).reason@
                    == NOT_ALLOWLISTED@,
            s.buckets().len() == 0,
            !s.was_reported(),
    {
        let t = triage_body(body);
        proof {
            lemma_accepted_are_acceptable(links_in(body@));
            assert forall|k: int| 0 <= k < t.accepted@.len() implies url_acceptable(
                #[trigger] t.accepted@[k]@,
            ) by {
                assert(texts(t.accepted@)[k] == t.accepted@[k]@);
            }
        }
        IngestSession {
            to_fetch: t.accepted,
            fetched: 0,
            rejected: t.rejected,
            groups: Vec::new(),
            reported: false,
        }
    }

    /// The next thing to do: fetch the queued URLs in order, then post the
    /// rejections once, then commit if any bucket received new files.
    pub fn next_action(&self) -> (r: IngestAction)
        ensures
            self.fetched_count() < self.queued().len() ==> (r matches IngestAction::Fetch(u) && u@
                == self.queued()[self.fetched_count() as int]),
            self.fetched_count() >= self.queued().len() && self.rejections().len() > 0
                && !self.was_reported() ==> (r matches IngestAction::Comment(c) && c@ == report_text(
                self.rejections(),
            )),
            self.fetched_count() >= self.queued().len() && (self.rejections().len() == 0
                || self.was_reported()) ==> (r is Commit <==> self.buckets().len() > 0) && (r is Done
                <==> self.buckets().len() == 0),
            r matches IngestAction::Fetch(u) ==> url_acceptable(u@),
    {
        proof {
            use_type_invariant(self);
        }
        if self.fetched < self.to_fetch.len() {
            assert(self.queued()[self.fetched as int] == self.to_fetch@[self.fetched as int]@);
            return IngestAction::Fetch(self.to_fetch[self.fetched].clone());
        }
        if !self.reported {
            match rejection_comment(&self.rejected) {
                Some(c) => return IngestAction::Comment(c),
                None => {},
            }
        }
        if self.groups.len() > 0 {
            IngestAction::Commit
        } else {
            IngestAction::Done
        }
    }

    /// Records how the fetch of the next queued URL ended: a stored file
    /// counts for its bucket, a failure is rejected under that URL. Nothing
    /// changes when no URL awaits an outcome.
    pub fn record_fetch(&mut self, outcome: FetchOutcome)
        ensures
            old(self).fetched_count() >= old(self).queued().len() ==> *final(self) == *old(self),
            old(self).fetched_count() < old(self).queued().len() ==> {
                &&& final(self).fetched_count() == old(self).fetched_count() + 1
                &&& final(self).queued() == old(self).queued()
                &&& final(self).was_reported() == old(self).was_reported()
                &&& match outcome {
                    FetchOutcome::Stored { version, model_name } => {
                        &&& final(self).rejections() == old(self).rejections()
                        &&& groups_recorded(
                            old(self).buckets(),
                            final(self).buckets(),
                            version@,
                            model_name@,
                        )
                    },
                    FetchOutcome::Failed { reason } => {
                        &&& final(self).buckets() == old(self).buckets()
                        &&& final(self).rejections().len() == old(self).rejections().len() + 1
                        &&& final(self).rejections().drop_last() == old(self).rejections()
                        &&& final(self).rejections().last().url@ == old(self).queued()[old(
                            self,
                        ).fetched_count() as int]
                        &&& final(self).rejections().last().reason@ == reason@
                    },
                }
            },
    {
        proof {
            use_type_invariant(&*self);
        }
        if self.fetched >= self.to_fetch.len() {
            return;
        }
        let i = self.fetched;
        match outcome {
            FetchOutcome::Stored { version, model_name } => {
                let ghost start = self.groups@;
                assert(forall|j: int| 0 <= j < start.len() ==> (#[trigger] start[j]).new_files <= i);
                let mut groups: Vec<HighLevel> = Vec::new();
                std::mem::swap(&mut self.groups, &mut groups);
                let ghost before = groups@;
                assert(before == start);
                self.fetched = i + 1;
                let k = record_new_file(&mut groups, version.as_str(), model_name.as_str());
                proof {
                    if k < before.len() {
                        assert(groups_recorded(before, groups@, version@, model_name@));
                    } else {
                        assert(groups@.last() == groups@[k as int]);
                        assert(groups_recorded(before, groups@, version@, model_name@));
                    }
                }
                assert forall|j: int| 0 <= j < groups@.len() implies (#[trigger] groups@[j]).new_files <= i + 1 by {
                    if k < before.len() {
                        if j != k {
                            assert(groups@[j] == before[j]);
                        }
                    } else if j < before.len() {
                        assert(groups@.drop_last()[j] == groups@[j]);
                    }
                }
                self.groups = groups;
            },
            FetchOutcome::Failed { reason } => {
                let url = self.to_fetch[i].clone();
                let mut rejected: Vec<Rejection> = Vec::new();
                std::mem::swap(&mut self.rejected, &mut rejected);
                let ghost before = rejected@;
                rejected.push(Rejection { url, reason });
                assert(rejected@.drop_last() =~= before);
                self.rejected = rejected;
                self.fetched = i + 1;
            },
        }
    }

    /// Records that the rejection comment was posted.
    pub fn comment_posted(&mut self)
        ensures
            final(self).was_reported(),
            final(self).queued() == old(self).queued(),
            final(self).fetched_count() == old(self).fetched_count(),
            final(self).rejections() == old(self).rejections(),
            final(self).buckets() == old(self).buckets(),
    {
        proof {
            use_type_invariant(&*self);
        }
        self.reported = true;
    }

    /// The buckets that received new files, in the order of their first file.
    pub fn new_buckets(&self) -> (r: &Vec<HighLevel>)
        ensures
            r@ == self.buckets(),
    {
        &self.groups
    }

    /// The rejections so far, in order.
    pub fn rejected(&self) -> (r: &Vec<Rejection>)
        ensures
            r@ == self.rejections(),
    {
        &self.rejected
    }
}

} // verus!
