//! Summaries of remote commit activity: which of the trailing weekdays a
//! student committed on, how many commits that was, and how long ago the
//! latest one happened.
//!
//! Timestamps are seconds since the Unix epoch. Fetching commits is the
//! shell's job; everything here is a pure function of the values fetched.

use vstd::prelude::*;
use vstd::string::StringExecFns;
use crate::strutil::{dec_str, u64_to_string};

verus! {

/// A day of the week.
#[derive(Debug, Clone, Copy, PartialEq, Eq, Structural)]
pub enum Weekday {
    Mon,
    Tue,
    Wed,
    Thu,
    Fri,
    Sat,
    Sun,
}

pub open spec fn weekday_num(d: Weekday) -> int {
    match d {
        Weekday::Mon => 0,
        Weekday::Tue => 1,
        Weekday::Wed => 2,
        Weekday::Thu => 3,
        Weekday::Fri => 4,
        Weekday::Sat => 5,
        Weekday::Sun => 6,
    }
}

pub open spec fn is_weekend(d: Weekday) -> bool {
    d is Sat || d is Sun
}

/// The day before.
pub open spec fn prev_weekday(d: Weekday) -> Weekday {
    match d {
        Weekday::Mon => Weekday::Sun,
        Weekday::Tue => Weekday::Mon,
        Weekday::Wed => Weekday::Tue,
        Weekday::Thu => Weekday::Wed,
        Weekday::Fri => Weekday::Thu,
        Weekday::Sat => Weekday::Fri,
        Weekday::Sun => Weekday::Sat,
    }
}

/// The weekday index of an epoch timestamp, with Monday as 0. The epoch
/// began on a Thursday.
pub open spec fn weekday_index_of(secs: int) -> int {
    (secs / 86400 + 3) % 7
}

/// Whether a timestamp falls on a weekday (Monday through Friday).
pub open spec fn on_weekday(secs: int) -> bool {
    weekday_index_of(secs) < 5
}

fn weekday_from_index(i: u8) -> (r: Weekday)
    requires
        i < 7,
    ensures
        weekday_num(r) == i,
{
    match i {
        0 => Weekday::Mon,
        1 => Weekday::Tue,
        2 => Weekday::Wed,
        3 => Weekday::Thu,
        4 => Weekday::Fri,
        5 => Weekday::Sat,
        _ => Weekday::Sun,
    }
}

/// The weekday an epoch timestamp falls on.
pub fn weekday_of_timestamp(secs: i64) -> (r: Weekday)
    requires
        secs >= 0,
    ensures
        weekday_num(r) == weekday_index_of(secs as int),
{
    let idx = ((secs / 86400 + 3) % 7) as u8;
    proof {
        vstd::arithmetic::div_mod::lemma_div_pos_is_pos(secs as int, 86400);
        vstd::arithmetic::div_mod::lemma_mod_bound(secs as int / 86400 + 3, 7);
    }
    weekday_from_index(idx)
}

/// The short display name of a weekday.
pub open spec fn weekday_name_spec(d: Weekday) -> Seq<char> {
    match d {
        Weekday::Mon => "Mon"@,
        Weekday::Tue => "Tue"@,
        Weekday::Wed => "Wed"@,
        Weekday::Thu => "Thu"@,
        Weekday::Fri => "Fri"@,
        Weekday::Sat => "Sat"@,
        Weekday::Sun => "Sun"@,
    }
}

pub fn format_weekday(weekday: Weekday) -> (r: &'static str)
    ensures
        r@ == weekday_name_spec(weekday),
{
    match weekday {
        Weekday::Mon => "Mon",
        Weekday::Tue => "Tue",
        Weekday::Wed => "Wed",
        Weekday::Thu => "Thu",
        Weekday::Fri => "Fri",
        Weekday::Sat => "Sat",
        Weekday::Sun => "Sun",
    }
}

/// The five weekdays a week-view column stands for, in display order.
pub fn get_current_weekdays() -> (r: Vec<Weekday>)
    ensures
        r@ == seq![Weekday::Mon, Weekday::Tue, Weekday::Wed, Weekday::Thu, Weekday::Fri],
{
    let mut v: Vec<Weekday> = Vec::new();
    v.push(Weekday::Mon);
    v.push(Weekday::Tue);
    v.push(Weekday::Wed);
    v.push(Weekday::Thu);
    v.push(Weekday::Fri);
    proof {
        assert(v@ =~= seq![
            Weekday::Mon,
            Weekday::Tue,
            Weekday::Wed,
            Weekday::Thu,
            Weekday::Fri,
        ]);
    }
    v
}

/// The trailing `count` weekdays ending at `today` (or at the last
/// weekday before it, when `today` falls on a weekend), in chronological
/// order.
pub open spec fn past_weekdays_spec(today: Weekday, count: nat) -> Seq<Weekday>
    decreases count, weekday_num(today),
{
    if count == 0 {
        Seq::empty()
    } else if is_weekend(today) {
        past_weekdays_spec(prev_weekday(today), count)
    } else {
        past_weekdays_spec(prev_weekday(today), (count - 1) as nat).push(today)
    }
}

pub fn get_past_weekdays(today: Weekday, count: usize) -> (r: Vec<Weekday>)
    ensures
        r@ == past_weekdays_spec(today, count as nat),
    decreases count, weekday_num(today),
{
    if count == 0 {
        Vec::new()
    } else if matches!(today, Weekday::Sat) || matches!(today, Weekday::Sun) {
        let prev = match today {
            Weekday::Sat => Weekday::Fri,
            _ => Weekday::Sat,
        };
        get_past_weekdays(prev, count)
    } else {
        let prev = match today {
            Weekday::Mon => Weekday::Sun,
            Weekday::Tue => Weekday::Mon,
            Weekday::Wed => Weekday::Tue,
            Weekday::Thu => Weekday::Wed,
            _ => Weekday::Thu,
        };
        let mut v = get_past_weekdays(prev, count - 1);
        v.push(today);
        v
    }
}

/// A user record on the remote code-hosting service, as plain values.
#[derive(Debug)]
pub struct GitHubUser {
    pub login: String,
    pub id: u64,
    pub avatar_url: String,
}

impl Clone for GitHubUser {
    fn clone(&self) -> (r: GitHubUser)
        ensures
            r == *self,
    {
        GitHubUser { login: self.login.clone(), id: self.id, avatar_url: self.avatar_url.clone() }
    }
}

/// One student's activity over the trailing five weekdays: a flag per
/// day, the weekday commit count, the newest commit time, and the fetch
/// error if the lookup failed.
#[derive(Debug)]
pub struct WeekActivity {
    pub student_username: String,
    pub student_github_username: String,
    pub monday: bool,
    pub tuesday: bool,
    pub wednesday: bool,
    pub thursday: bool,
    pub friday: bool,
    pub total_commits: u64,
    pub latest_commit: Option<i64>,
    pub error: Option<String>,
}

impl WeekActivity {
    /// Whether the student committed on the given day; weekends never
    /// carry a flag.
    pub open spec fn committed_on_spec(self, d: Weekday) -> bool {
        match d {
            Weekday::Mon => self.monday,
            Weekday::Tue => self.tuesday,
            Weekday::Wed => self.wednesday,
            Weekday::Thu => self.thursday,
            Weekday::Fri => self.friday,
            Weekday::Sat => false,
            Weekday::Sun => false,
        }
    }

    pub fn committed_on(&self, d: Weekday) -> (r: bool)
        ensures
            r == self.committed_on_spec(d),
    {
        match d {
            Weekday::Mon => self.monday,
            Weekday::Tue => self.tuesday,
            Weekday::Wed => self.wednesday,
            Weekday::Thu => self.thursday,
            Weekday::Fri => self.friday,
            Weekday::Sat => false,
            Weekday::Sun => false,
        }
    }
}

/// How many of the commit timestamps fall on a weekday.
pub open spec fn weekday_commit_count(times: Seq<i64>) -> int
    decreases times.len(),
{
    if times.len() == 0 {
        0
    } else {
        weekday_commit_count(times.drop_last()) + if on_weekday(times.last() as int) {
            1int
        } else {
            0int
        }
    }
}

/// Whether some commit falls on the weekday with this index.
pub open spec fn has_commit_on(times: Seq<i64>, day_index: int) -> bool {
    exists|i: int| 0 <= i < times.len() && weekday_index_of(#[trigger] times[i] as int)
        == day_index
}

/// Whether `m` is the newest weekday commit time.
pub open spec fn is_latest_weekday_commit(times: Seq<i64>, m: i64) -> bool {
    &&& exists|i: int| 0 <= i < times.len() && #[trigger] times[i] == m && on_weekday(m as int)
    &&& forall|i: int| 0 <= i < times.len() && on_weekday(#[trigger] times[i] as int) ==> times[i]
        <= m
}

proof fn lemma_weekday_count_nonneg(times: Seq<i64>)
    ensures
        0 <= weekday_commit_count(times) <= times.len(),
    decreases times.len(),
{
    if times.len() > 0 {
        lemma_weekday_count_nonneg(times.drop_last());
    }
}

proof fn lemma_zero_count_no_weekday(times: Seq<i64>)
    requires
        weekday_commit_count(times) == 0,
    ensures
        forall|k: int| 0 <= k < times.len() ==> !on_weekday(#[trigger] times[k] as int),
    decreases times.len(),
{
    if times.len() > 0 {
        let dl = times.drop_last();
        lemma_weekday_count_nonneg(dl);
        lemma_zero_count_no_weekday(dl);
        assert forall|k: int| 0 <= k < times.len() implies !on_weekday(
            #[trigger] times[k] as int,
        ) by {
            if k < times.len() - 1 {
                assert(times[k] == dl[k]);
            } else {
                assert(times[k] == times.last());
            }
        }
    }
}

/// Sum the fetched commit times of one student into their week activity.
/// Commits on weekends are left out, as the view has no column for them.
/// A fetch that found no commits at all (a missing remote repository
/// included) yields a result with every flag off, a zero count, and no
/// error: absence is not a failure.
pub fn week_activity_from_commits(github_username: &str, commit_times: &Vec<i64>) -> (r:
    WeekActivity)
    requires
        forall|i: int| 0 <= i < commit_times@.len() ==> #[trigger] commit_times@[i] >= 0,
        commit_times@.len() < 1000000000,
    ensures
        r.student_username@ == github_username@,
        r.student_github_username@ == github_username@,
        r.error is None,
        r.total_commits == weekday_commit_count(commit_times@),
        forall|d: Weekday| !is_weekend(d) ==> r.committed_on_spec(d) == has_commit_on(
            commit_times@,
            weekday_num(d),
        ),
        r.latest_commit is None <==> weekday_commit_count(commit_times@) == 0,
        r.latest_commit matches Some(m) ==> is_latest_weekday_commit(commit_times@, m),
{
    let mut monday = false;
    let mut tuesday = false;
    let mut wednesday = false;
    let mut thursday = false;
    let mut friday = false;
    let mut total: u64 = 0;
    let mut latest: Option<i64> = None;
    let mut i: usize = 0;
    while i < commit_times.len()
        invariant
            i <= commit_times@.len(),
            commit_times@.len() < 1000000000,
            forall|k: int| 0 <= k < commit_times@.len() ==> #[trigger] commit_times@[k] >= 0,
            total == weekday_commit_count(commit_times@.take(i as int)),
            monday == has_commit_on(commit_times@.take(i as int), 0),
            tuesday == has_commit_on(commit_times@.take(i as int), 1),
            wednesday == has_commit_on(commit_times@.take(i as int), 2),
            thursday == has_commit_on(commit_times@.take(i as int), 3),
            friday == has_commit_on(commit_times@.take(i as int), 4),
            latest is None <==> weekday_commit_count(commit_times@.take(i as int)) == 0,
            latest matches Some(m) ==> is_latest_weekday_commit(commit_times@.take(i as int), m),
        decreases commit_times@.len() - i,
    {
        proof {
            lemma_weekday_count_nonneg(commit_times@.take(i as int));
            assert(commit_times@.take(i + 1).drop_last() =~= commit_times@.take(i as int));
            assert(commit_times@.take(i + 1).last() == commit_times@[i as int]);
        }
        let ghost latest_pre = latest;
        let t = commit_times[i];
        let day = weekday_of_timestamp(t);
        let day_is_weekday = match day {
            Weekday::Sat => false,
            Weekday::Sun => false,
            _ => true,
        };
        if day_is_weekday {
            total = total + 1;
            match day {
                Weekday::Mon => {
                    monday = true;
                },
                Weekday::Tue => {
                    tuesday = true;
                },
                Weekday::Wed => {
                    wednesday = true;
                },
                Weekday::Thu => {
                    thursday = true;
                },
                _ => {
                    friday = true;
                },
            }
            latest = match latest {
                None => Some(t),
                Some(m) => if t > m {
                    Some(t)
                } else {
                    Some(m)
                },
            };
        }
        proof {
            let pre = commit_times@.take(i as int);
            let now = commit_times@.take(i + 1);
            assert(forall|k: int| 0 <= k < pre.len() ==> now[k] == #[trigger] pre[k]);
            assert(now[i as int] == t);
            lemma_weekday_count_nonneg(pre);
            if on_weekday(t as int) {
                match latest_pre {
                    None => {
                        assert(latest == Some(t));
                        lemma_zero_count_no_weekday(pre);
                    },
                    Some(m) => {
                        let w = choose|k: int|
                            0 <= k < pre.len() && #[trigger] pre[k] == m && on_weekday(m as int);
                        assert(now[w] == m);
                        if t > m {
                            assert(latest == Some(t));
                        } else {
                            assert(latest == Some(m));
                        }
                    },
                }
            } else {
                match latest_pre {
                    None => {},
                    Some(m) => {
                        let w = choose|k: int|
                            0 <= k < pre.len() && #[trigger] pre[k] == m && on_weekday(m as int);
                        assert(now[w] == m);
                    },
                }
            }
            assert forall|d: int| 0 <= d < 5 implies has_commit_on(now, d) == (has_commit_on(
                pre,
                d,
            ) || (on_weekday(t as int) && weekday_index_of(t as int) == d)) by {
                if has_commit_on(pre, d) {
                    let w = choose|k: int| 0 <= k < pre.len() && weekday_index_of(
                        #[trigger] pre[k] as int,
                    ) == d;
                    assert(now[w] == pre[w]);
                }
                if weekday_index_of(t as int) == d {
                    assert(now[i as int] == t);
                }
                if has_commit_on(now, d) && !(weekday_index_of(t as int) == d) {
                    let w = choose|k: int| 0 <= k < now.len() && weekday_index_of(
                        #[trigger] now[k] as int,
                    ) == d;
                    assert(w < i as int);
                    assert(pre[w] == now[w]);
                }
            }
        }
        i = i + 1;
    }
    proof {
        assert(commit_times@.take(commit_times@.len() as int) =~= commit_times@);
    }
    let username_a = github_username.to_owned();
    let username_b = github_username.to_owned();
    WeekActivity {
        student_username: username_a,
        student_github_username: username_b,
        monday,
        tuesday,
        wednesday,
        thursday,
        friday,
        total_commits: total,
        latest_commit: latest,
        error: None,
    }
}

/// The activity row shown when the fetch itself failed: no flags, no
/// count, and the failure's message.
pub fn week_activity_error(github_username: &str, message: String) -> (r: WeekActivity)
    ensures
        r.student_username@ == github_username@,
        r.student_github_username@ == github_username@,
        !r.monday && !r.tuesday && !r.wednesday && !r.thursday && !r.friday,
        r.total_commits == 0,
        r.latest_commit is None,
        r.error == Some(message),
{
    let username_a = github_username.to_owned();
    let username_b = github_username.to_owned();
    WeekActivity {
        student_username: username_a,
        student_github_username: username_b,
        monday: false,
        tuesday: false,
        wednesday: false,
        thursday: false,
        friday: false,
        total_commits: 0,
        latest_commit: None,
        error: Some(message),
    }
}

/// What a commit-listing response means: success carries commits, a
/// missing repository is an empty result rather than a failure, and
/// anything else is an error.
#[derive(Debug, Clone, Copy, PartialEq, Eq, Structural)]
pub enum CommitsFetchOutcome {
    Success,
    MissingRepo,
    Failure,
}

/// Classify an HTTP status from the commit-listing endpoint. A missing
/// remote repository (404) is expected for some students and is not an
/// error.
pub fn classify_commits_status(status: u16) -> (r: CommitsFetchOutcome)
    ensures
        200 <= status < 300 ==> r is Success,
        status == 404 ==> r is MissingRepo,
        !(200 <= status < 300) && status != 404 ==> r is Failure,
{
    if 200 <= status && status < 300 {
        CommitsFetchOutcome::Success
    } else if status == 404 {
        CommitsFetchOutcome::MissingRepo
    } else {
        CommitsFetchOutcome::Failure
    }
}

/// How an elapsed time reads, from "just now" up through years.
pub open spec fn format_time_ago_spec(secs: int) -> Seq<char> {
    if secs <= 1 {
        "just now"@
    } else if secs < 60 {
        dec_str(secs as nat) + " seconds ago"@
    } else if secs / 60 < 60 {
        if secs / 60 == 1 {
            "1 minute ago"@
        } else {
            dec_str((secs / 60) as nat) + " minutes ago"@
        }
    } else if secs / 3600 < 24 {
        if secs / 3600 == 1 {
            "1 hour ago"@
        } else {
            dec_str((secs / 3600) as nat) + " hours ago"@
        }
    } else if secs / 86400 < 7 {
        if secs / 86400 == 1 {
            "1 day ago"@
        } else {
            dec_str((secs / 86400) as nat) + " days ago"@
        }
    } else if secs / 86400 < 30 {
        if secs / 86400 / 7 == 1 {
            "1 week ago"@
        } else {
            dec_str((secs / 86400 / 7) as nat) + " weeks ago"@
        }
    } else if secs / 86400 < 365 {
        if secs / 86400 / 30 == 1 {
            "1 month ago"@
        } else {
            dec_str((secs / 86400 / 30) as nat) + " months ago"@
        }
    } else {
        if secs / 86400 / 365 == 1 {
            "1 year ago"@
        } else {
            dec_str((secs / 86400 / 365) as nat) + " years ago"@
        }
    }
}

/// Render how long ago something happened, given the elapsed seconds.
/// An elapsed time of at most one second (the clock may even have moved
/// backwards) reads "just now".
pub fn format_time_ago(elapsed_secs: i64) -> (r: String)
    ensures
        r@ == format_time_ago_spec(elapsed_secs as int),
{
    if elapsed_secs <= 1 {
        return "just now".to_owned();
    }
    let secs = elapsed_secs;
    if secs < 60 {
        let mut s = u64_to_string(secs as u64);
        s.append(" seconds ago");
        return s;
    }
    let minutes = secs / 60;
    if minutes < 60 {
        if minutes == 1 {
            return "1 minute ago".to_owned();
        }
        let mut s = u64_to_string(minutes as u64);
        s.append(" minutes ago");
        return s;
    }
    let hours = secs / 3600;
    if hours < 24 {
        if hours == 1 {
            return "1 hour ago".to_owned();
        }
        let mut s = u64_to_string(hours as u64);
        s.append(" hours ago");
        return s;
    }
    let days = secs / 86400;
    if days < 7 {
        if days == 1 {
            return "1 day ago".to_owned();
        }
        let mut s = u64_to_string(days as u64);
        s.append(" days ago");
        return s;
    }
    if days < 30 {
        let weeks = days / 7;
        if weeks == 1 {
            return "1 week ago".to_owned();
        }
        let mut s = u64_to_string(weeks as u64);
        s.append(" weeks ago");
        return s;
    }
    if days < 365 {
        let months = days / 30;
        if months == 1 {
            return "1 month ago".to_owned();
        }
        let mut s = u64_to_string(months as u64);
        s.append(" months ago");
        return s;
    }
    let years = days / 365;
    if years == 1 {
        return "1 year ago".to_owned();
    }
    let mut s = u64_to_string(years as u64);
    s.append(" years ago");
    s
}

} // verus!
