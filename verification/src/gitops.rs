//! The repository-operations side of the core: where a student's clone
//! lives on disk, which repositories a batch operation visits, and how a
//! batch's per-student results are summed up.
//!
//! Running the version-control commands themselves is the shell's job;
//! everything here is a pure function of its arguments, except the one
//! probe for a directory's existence.

use vstd::prelude::*;
use vstd::string::StringExecFns;
use crate::models::Student;

verus! {

/// Knows where cloned repositories live.
#[derive(Debug)]
pub struct GitManager {
    pub repos_dir: String,
}

impl Clone for GitManager {
    fn clone(&self) -> (r: GitManager)
        ensures
            r == *self,
    {
        GitManager { repos_dir: self.repos_dir.clone() }
    }
}

/// The directory a student's clone lives in:
/// `<repos_dir>/<class_name>/<github_username>`.
pub open spec fn repo_path_spec(
    repos_dir: Seq<char>,
    github_username: Seq<char>,
    class_name: Seq<char>,
) -> Seq<char> {
    repos_dir + "/"@ + class_name + "/"@ + github_username
}

impl GitManager {
    pub fn new(repos_dir: String) -> (r: GitManager)
        ensures
            r.repos_dir == repos_dir,
    {
        GitManager { repos_dir }
    }

    /// Where this student's clone for this class lives.
    pub fn get_repo_path(&self, github_username: &str, class_name: &str) -> (r: String)
        ensures
            r@ == repo_path_spec(self.repos_dir@, github_username@, class_name@),
    {
        let mut p = self.repos_dir.clone();
        p.append("/");
        p.append(class_name);
        p.append("/");
        p.append(github_username);
        p
    }

    /// Whether the student's clone is already on disk.
    pub fn repo_exists(&self, github_username: &str, class_name: &str) -> bool {
        let p = self.get_repo_path(github_username, class_name);
        path_exists(&p)
    }
}

/// Relies on std::path::Path::exists: whether something is on disk at
/// that path right now. Nothing can be promised of the answer.
#[verifier::external_body]
fn path_exists(p: &String) -> bool {
    std::path::Path::new(p.as_str()).exists()
}

/// The remote handles a batch operation over these students visits, in
/// enrollment-list order, one per student, none skipped.
pub fn clone_all_targets(students: &Vec<Student>) -> (r: Vec<String>)
    ensures
        r@.len() == students@.len(),
        forall|i: int| 0 <= i < students@.len() ==> r@[i]@ == students@[i].github_username@,
{
    let mut out: Vec<String> = Vec::new();
    let mut i: usize = 0;
    while i < students.len()
        invariant
            i <= students@.len(),
            out@.len() == i,
            forall|j: int| 0 <= j < i ==> out@[j]@ == students@[j].github_username@,
        decreases students@.len() - i,
    {
        out.push(students[i].github_username.clone());
        i = i + 1;
    }
    out
}

/// How many of the per-student results succeeded.
pub open spec fn ok_count(rs: Seq<(String, Result<(), String>)>) -> int
    decreases rs.len(),
{
    if rs.len() == 0 {
        0
    } else {
        ok_count(rs.drop_last()) + if rs.last().1 is Ok {
            1int
        } else {
            0int
        }
    }
}

/// One line naming a failure: `<handle>: <message>`.
pub open spec fn failure_line(handle: Seq<char>, message: Seq<char>) -> Seq<char> {
    handle + ": "@ + message
}

/// The failure lines of the per-student results, in order.
pub open spec fn failure_lines(rs: Seq<(String, Result<(), String>)>) -> Seq<Seq<char>>
    decreases rs.len(),
{
    if rs.len() == 0 {
        Seq::empty()
    } else {
        failure_lines(rs.drop_last()) + match rs.last().1 {
            Ok(_) => Seq::<Seq<char>>::empty(),
            Err(e) => seq![failure_line(rs.last().0@, e@)],
        }
    }
}

/// The count of successes never loses a result to a failure: together
/// with the named failures it accounts for every student in the batch.
pub proof fn lemma_batch_accounts_for_every_student(rs: Seq<(String, Result<(), String>)>)
    ensures
        ok_count(rs) + failure_lines(rs).len() == rs.len(),
        0 <= ok_count(rs),
    decreases rs.len(),
{
    if rs.len() > 0 {
        lemma_batch_accounts_for_every_student(rs.drop_last());
    }
}

/// What a batch clone reports: how many succeeded, and one line per
/// failure naming the student and what went wrong.
#[derive(Debug)]
pub struct CloneBatchSummary {
    pub successes: u64,
    pub failures: Vec<String>,
}

/// Sum up per-student results: count the successes and keep one named
/// line per failure, in batch order. No student's outcome is dropped.
pub fn summarize_clone_results(results: &Vec<(String, Result<(), String>)>) -> (r:
    CloneBatchSummary)
    requires
        results@.len() < 1000000000,
    ensures
        r.successes == ok_count(results@),
        r.failures@.len() == failure_lines(results@).len(),
        forall|i: int| 0 <= i < r.failures@.len() ==> r.failures@[i]@ == failure_lines(
            results@,
        )[i],
        r.successes + r.failures@.len() == results@.len(),
{
    let mut successes: u64 = 0;
    let mut failures: Vec<String> = Vec::new();
    let mut i: usize = 0;
    proof {
        lemma_batch_accounts_for_every_student(results@);
    }
    while i < results.len()
        invariant
            i <= results@.len(),
            results@.len() < 1000000000,
            successes == ok_count(results@.take(i as int)),
            failures@.len() == failure_lines(results@.take(i as int)).len(),
            forall|j: int| 0 <= j < failures@.len() ==> failures@[j]@ == failure_lines(
                results@.take(i as int),
            )[j],
        decreases results@.len() - i,
    {
        proof {
            lemma_batch_accounts_for_every_student(results@.take(i as int));
            assert(results@.take(i + 1).drop_last() =~= results@.take(i as int));
            assert(results@.take(i + 1).last() == results@[i as int]);
        }
        match &results[i].1 {
            Ok(_) => {
                successes = successes + 1;
            },
            Err(e) => {
                let mut line = results[i].0.clone();
                line.append(": ");
                line.append(e.as_str());
                failures.push(line);
            },
        }
        i = i + 1;
    }
    proof {
        assert(results@.take(results@.len() as int) =~= results@);
        lemma_batch_accounts_for_every_student(results@);
    }
    CloneBatchSummary { successes, failures }
}

} // verus!
