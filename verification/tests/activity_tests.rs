use scv::activity::{
    classify_commits_status, format_time_ago, format_weekday, get_current_weekdays,
    get_past_weekdays, week_activity_error, week_activity_from_commits, weekday_of_timestamp,
    CommitsFetchOutcome, Weekday,
};
use scv::models::Student;
use scv::screens::{latest_table_rows, week_table_rows};

const DAY: i64 = 86400;

// 1970-01-01 was a Thursday; day 4 (1970-01-05) was a Monday.
const A_MONDAY: i64 = 4 * DAY;

fn student(name: &str) -> Student {
    Student {
        id: 1,
        class_id: 1,
        username: name.to_string(),
        github_username: name.to_string(),
        created_at: 0,
    }
}

#[test]
fn weekday_arithmetic() {
    assert_eq!(weekday_of_timestamp(0), Weekday::Thu);
    assert_eq!(weekday_of_timestamp(A_MONDAY), Weekday::Mon);
    assert_eq!(weekday_of_timestamp(A_MONDAY + DAY), Weekday::Tue);
    assert_eq!(weekday_of_timestamp(A_MONDAY + 5 * DAY), Weekday::Sat);
    assert_eq!(format_weekday(Weekday::Mon), "Mon");
    assert_eq!(format_weekday(Weekday::Sun), "Sun");
}

#[test]
fn current_weekdays_are_the_work_week() {
    let days = get_current_weekdays();
    assert_eq!(
        days,
        vec![Weekday::Mon, Weekday::Tue, Weekday::Wed, Weekday::Thu, Weekday::Fri]
    );
}

#[test]
fn past_weekdays_skip_the_weekend() {
    // The five weekdays trailing a Sunday end on Friday.
    let days = get_past_weekdays(Weekday::Sun, 5);
    assert_eq!(
        days,
        vec![Weekday::Mon, Weekday::Tue, Weekday::Wed, Weekday::Thu, Weekday::Fri]
    );
    // Trailing a Wednesday: Thu, Fri of last week, then Mon, Tue, Wed.
    let days = get_past_weekdays(Weekday::Wed, 5);
    assert_eq!(
        days,
        vec![Weekday::Thu, Weekday::Fri, Weekday::Mon, Weekday::Tue, Weekday::Wed]
    );
}

#[test]
fn ghost_user_with_no_repository_has_empty_activity_and_no_error() {
    // A missing remote repository yields an empty commit list, which is
    // not a failure.
    assert_eq!(classify_commits_status(404), CommitsFetchOutcome::MissingRepo);
    let a = week_activity_from_commits("ghost-user", &Vec::new());
    assert_eq!(a.student_github_username, "ghost-user");
    assert!(!a.monday && !a.tuesday && !a.wednesday && !a.thursday && !a.friday);
    assert_eq!(a.total_commits, 0);
    assert!(a.latest_commit.is_none());
    assert!(a.error.is_none());
}

#[test]
fn commit_status_classification() {
    assert_eq!(classify_commits_status(200), CommitsFetchOutcome::Success);
    assert_eq!(classify_commits_status(299), CommitsFetchOutcome::Success);
    assert_eq!(classify_commits_status(500), CommitsFetchOutcome::Failure);
    assert_eq!(classify_commits_status(403), CommitsFetchOutcome::Failure);
}

#[test]
fn week_activity_counts_weekday_commits_only() {
    let commits = vec![
        A_MONDAY + 10,            // Monday
        A_MONDAY + 10,            // Monday again
        A_MONDAY + 2 * DAY + 50,  // Wednesday
        A_MONDAY + 5 * DAY,       // Saturday: ignored
    ];
    let a = week_activity_from_commits("ada", &commits);
    assert!(a.monday);
    assert!(!a.tuesday);
    assert!(a.wednesday);
    assert!(!a.thursday && !a.friday);
    assert_eq!(a.total_commits, 3);
    assert_eq!(a.latest_commit, Some(A_MONDAY + 2 * DAY + 50));
    assert!(a.error.is_none());
}

#[test]
fn week_activity_error_row() {
    let a = week_activity_error("ada", "rate limited".to_string());
    assert_eq!(a.error.as_deref(), Some("rate limited"));
    assert_eq!(a.total_commits, 0);
}

#[test]
fn week_table_rows_mark_days_and_totals() {
    let ok = week_activity_from_commits("ada", &vec![A_MONDAY + 5]);
    let bad = week_activity_error("bob", "boom".to_string());
    let rows = week_table_rows(&vec![ok, bad]);
    assert_eq!(rows.len(), 2);
    assert_eq!(rows[0], vec!["ada", "+", "x", "x", "x", "x", "1"]);
    assert_eq!(rows[1], vec!["bob", "x", "x", "x", "x", "x", "Error"]);
}

#[test]
fn latest_table_rows_show_relative_times() {
    let students = vec![student("ada"), student("bob"), student("eve")];
    let now = 1000 * DAY;
    let data = vec![
        ("ada".to_string(), Some(now - 3600)),
        ("bob".to_string(), None),
    ];
    let rows = latest_table_rows(&students, &data, now);
    assert_eq!(rows[0], vec!["ada", "ada", "1 hour ago"]);
    assert_eq!(rows[1], vec!["bob", "bob", "No commits found"]);
    assert_eq!(rows[2], vec!["eve", "eve", "Loading..."]);
}

#[test]
fn relative_times_read_naturally() {
    assert_eq!(format_time_ago(0), "just now");
    assert_eq!(format_time_ago(1), "just now");
    assert_eq!(format_time_ago(-30), "just now");
    assert_eq!(format_time_ago(5), "5 seconds ago");
    assert_eq!(format_time_ago(60), "1 minute ago");
    assert_eq!(format_time_ago(5 * 60), "5 minutes ago");
    assert_eq!(format_time_ago(3600), "1 hour ago");
    assert_eq!(format_time_ago(3 * 3600), "3 hours ago");
    assert_eq!(format_time_ago(DAY), "1 day ago");
    assert_eq!(format_time_ago(3 * DAY), "3 days ago");
    assert_eq!(format_time_ago(7 * DAY), "1 week ago");
    assert_eq!(format_time_ago(14 * DAY), "2 weeks ago");
    assert_eq!(format_time_ago(30 * DAY), "1 month ago");
    assert_eq!(format_time_ago(90 * DAY), "3 months ago");
    assert_eq!(format_time_ago(365 * DAY), "1 year ago");
    assert_eq!(format_time_ago(800 * DAY), "2 years ago");
}
