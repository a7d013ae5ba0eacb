//! The high-level intents screens hand the controller, the I/O requests
//! the controller hands back out, and the completions that return once
//! that I/O resolves.
//!
//! The controller itself never touches storage, the network or a child
//! process: dispatching an event yields at most one [`Effect`], the shell
//! performs it, and the outcome comes back as a [`Completion`].

use vstd::prelude::*;
use crate::models::{Class, Student};
use crate::screen::{ScreenType, ScreenTypeVariant};

verus! {

/// A high-level intent produced by input handling.
#[derive(Debug)]
pub enum AppEvent {
    NavigateToScreen(ScreenType),
    GoBack,
    Quit,
    ShowLoading(String),
    HideLoading,
    ShowError(String),
    ClearError,
    ShowSuccess(String),
    SelectClass(Class),
    ClassCreated(Class),
    ClassDeleted(i64),
    StudentAdded(Student),
    StudentDeleted(i64),
    SubmitStudents { class_id: i64, usernames: Vec<String> },
    CloneRepositories,
    PullRepositories,
    CleanRepositories,
    CloneRepo(String),
    PullRepo(String),
    CleanRepo(String),
    OpenInTerminal(String),
    CloneAllRepos,
    FetchGitHubActivity,
    ShowWeekView,
    ShowLatestActivity,
    RefreshLatestActivity,
    RefreshData,
}

/// The repository operations that run one at a time.
#[derive(Debug, Clone, Copy, PartialEq, Eq, Structural)]
pub enum RepoOp {
    Clone,
    Pull,
    Clean,
    OpenTerminal,
}

/// One piece of outside work the controller asks the shell to perform.
/// Each carries everything the shell needs as plain values.
#[derive(Debug)]
pub enum Effect {
    /// Persist a new class under this name.
    CreateClass { name: String },
    /// Re-read the class list.
    RefreshClasses,
    /// Read the students of a class, then show the view that needed
    /// them. `push_current` says whether the screen being left belongs on
    /// the back-stack (it does not when the load came from going back).
    LoadStudents { target: ScreenTypeVariant, class: Class, push_current: bool },
    /// Run one repository operation for one student.
    RunRepoOp { op: RepoOp, github_username: String, class_name: String },
    /// Clone every student repository of a class, one at a time, never
    /// stopping early.
    CloneAll { class_id: i64, class_name: String },
    /// Persist new students under these names.
    AddStudents { class_id: i64, usernames: Vec<String> },
    /// Remove a student record.
    DeleteStudent { id: i64 },
    /// Fetch each student's trailing-week commit activity.
    LoadWeekActivity,
    /// Fetch each student's newest commit time.
    LoadLatestActivity,
}

/// The outcome of one [`Effect`], handed back to the controller.
#[derive(Debug)]
pub enum Completion {
    ClassesLoaded(Vec<Class>),
    ClassesFailed(String),
    ClassCreated(Class),
    ClassCreateFailed { name: String, message: String },
    StudentsLoaded {
        target: ScreenTypeVariant,
        class: Class,
        students: Vec<Student>,
        push_current: bool,
    },
    StudentsFailed(String),
    StudentsAdded,
    StudentDeleted,
    RepoOpDone { op: RepoOp, github_username: String, result: Result<(), String> },
    CloneAllDone { results: Vec<(String, Result<(), String>)> },
    CloneAllFailed(String),
    WeekActivityLoaded(Vec<crate::activity::WeekActivity>),
    LatestActivityLoaded(Vec<(String, Option<i64>)>),
    LatestActivityFailed(String),
}

/// Hands terminal input on to the controller; the polling itself lives
/// with the terminal.
#[derive(Debug)]
pub struct EventHandler;

impl EventHandler {
    pub fn new() -> EventHandler {
        EventHandler {  }
    }
}

} // verus!
