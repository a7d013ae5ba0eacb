//! Screen identities: the tags naming each view of the application, and
//! the context payload a view may require from its caller.
//!
//! Two identities count as the same destination when their tags match;
//! the navigation stack never compares payloads.

use vstd::prelude::*;
use crate::models::{Class, Student};

verus! {

/// The fixed set of views.
#[derive(Debug, Clone, Copy, PartialEq, Eq, Structural)]
pub enum ScreenTypeVariant {
    MainMenu,
    ClassSelection,
    CreateClass,
    ClassManagement,
    StudentManagement,
    AddStudents,
    RemoveStudent,
    RepositoryManagement,
    GitHubActivity,
    WeekView,
    LatestActivity,
    Settings,
    ConfirmDeleteClass,
    DeleteStudent,
}

/// The display name of each view.
pub open spec fn variant_name_spec(v: ScreenTypeVariant) -> Seq<char> {
    match v {
        ScreenTypeVariant::MainMenu => "Main Menu"@,
        ScreenTypeVariant::ClassSelection => "Class Selection"@,
        ScreenTypeVariant::CreateClass => "Create Class"@,
        ScreenTypeVariant::ClassManagement => "Class Management"@,
        ScreenTypeVariant::StudentManagement => "Student Management"@,
        ScreenTypeVariant::AddStudents => "Add Students"@,
        ScreenTypeVariant::RemoveStudent => "Remove Student"@,
        ScreenTypeVariant::RepositoryManagement => "Repository Management"@,
        ScreenTypeVariant::GitHubActivity => "GitHub Activity"@,
        ScreenTypeVariant::WeekView => "Week View"@,
        ScreenTypeVariant::LatestActivity => "Latest Activity"@,
        ScreenTypeVariant::Settings => "Settings"@,
        ScreenTypeVariant::ConfirmDeleteClass => "Confirm Delete Class"@,
        ScreenTypeVariant::DeleteStudent => "Delete Student"@,
    }
}

impl ScreenTypeVariant {
    /// The human-readable name of the view.
    pub fn name(&self) -> (r: &'static str)
        ensures
            r@ == variant_name_spec(*self),
    {
        match self {
            ScreenTypeVariant::MainMenu => "Main Menu",
            ScreenTypeVariant::ClassSelection => "Class Selection",
            ScreenTypeVariant::CreateClass => "Create Class",
            ScreenTypeVariant::ClassManagement => "Class Management",
            ScreenTypeVariant::StudentManagement => "Student Management",
            ScreenTypeVariant::AddStudents => "Add Students",
            ScreenTypeVariant::RemoveStudent => "Remove Student",
            ScreenTypeVariant::RepositoryManagement => "Repository Management",
            ScreenTypeVariant::GitHubActivity => "GitHub Activity",
            ScreenTypeVariant::WeekView => "Week View",
            ScreenTypeVariant::LatestActivity => "Latest Activity",
            ScreenTypeVariant::Settings => "Settings",
            ScreenTypeVariant::ConfirmDeleteClass => "Confirm Delete Class",
            ScreenTypeVariant::DeleteStudent => "Delete Student",
        }
    }
}

/// Data a context-sensitive view needs from its caller.
#[derive(Debug)]
pub enum ScreenContext {
    Class(Class),
    Student(Student),
    ClassAndStudent(Class, Student),
}

impl Clone for ScreenContext {
    fn clone(&self) -> (r: ScreenContext)
        ensures
            r == *self,
    {
        match self {
            ScreenContext::Class(c) => ScreenContext::Class(c.clone()),
            ScreenContext::Student(s) => ScreenContext::Student(s.clone()),
            ScreenContext::ClassAndStudent(c, s) => ScreenContext::ClassAndStudent(
                c.clone(),
                s.clone(),
            ),
        }
    }
}

/// A view's identity: its tag, and the payload it carries, if any.
#[derive(Debug)]
pub struct ScreenType {
    pub variant: ScreenTypeVariant,
    pub context: Option<ScreenContext>,
}

impl Clone for ScreenType {
    fn clone(&self) -> (r: ScreenType)
        ensures
            r == *self,
    {
        let context = match &self.context {
            Some(c) => Some(c.clone()),
            None => None,
        };
        ScreenType { variant: self.variant, context }
    }
}

impl ScreenType {
    pub fn new(variant: ScreenTypeVariant) -> (r: ScreenType)
        ensures
            r.variant == variant,
            r.context is None,
    {
        ScreenType { variant, context: None }
    }

    /// The same identity, now carrying a payload.
    pub fn with_context(self, context: ScreenContext) -> (r: ScreenType)
        ensures
            r.variant == self.variant,
            r.context == Some(context),
    {
        ScreenType { variant: self.variant, context: Some(context) }
    }

    pub fn variant(&self) -> (r: &ScreenTypeVariant)
        ensures
            r == &self.variant,
    {
        &self.variant
    }

    pub fn context(&self) -> (r: Option<&ScreenContext>)
        ensures
            self.context matches Some(c) ==> r matches Some(d) && c == *d,
            self.context is None ==> r is None,
    {
        self.context.as_ref()
    }

    /// Whether two identities name the same destination: their tags
    /// match, whatever their payloads.
    pub open spec fn same_tag(self, other: ScreenType) -> bool {
        self.variant == other.variant
    }
}

/// Which views cannot be shown without a payload.
pub open spec fn requires_context(v: ScreenTypeVariant) -> bool {
    ||| v is ClassManagement
    ||| v is StudentManagement
    ||| v is AddStudents
    ||| v is DeleteStudent
    ||| v is GitHubActivity
    ||| v is RepositoryManagement
    ||| v is WeekView
    ||| v is LatestActivity
}

/// Which views need the class's student list loaded before they can be
/// built.
pub open spec fn needs_students(v: ScreenTypeVariant) -> bool {
    ||| v is DeleteStudent
    ||| v is RepositoryManagement
    ||| v is WeekView
    ||| v is LatestActivity
}

/// Which views have no implementation yet; asking for one fails fast in
/// the factory rather than deep in rendering.
pub open spec fn unimplemented_variant(v: ScreenTypeVariant) -> bool {
    ||| v is Settings
    ||| v is ConfirmDeleteClass
    ||| v is RemoveStudent
}

} // verus!
