//! The records the application works with: classes and the students
//! enrolled in them.
//!
//! Timestamps are seconds since the Unix epoch; identifiers are assigned
//! by the storage layer, which hands records back with their final `id`.

use vstd::prelude::*;

verus! {

/// A class of students.
#[derive(Debug)]
pub struct Class {
    pub id: i64,
    pub name: String,
    pub created_at: i64,
}

/// A student enrolled in one class, with the handle naming them on the
/// remote code-hosting service.
#[derive(Debug)]
pub struct Student {
    pub id: i64,
    pub class_id: i64,
    pub username: String,
    pub github_username: String,
    pub created_at: i64,
}

/// A student together with the class they belong to.
#[derive(Debug)]
pub struct StudentWithClass {
    pub student: Student,
    pub class: Class,
}

impl Clone for Class {
    fn clone(&self) -> (r: Class)
        ensures
            r == *self,
    {
        Class { id: self.id, name: self.name.clone(), created_at: self.created_at }
    }
}

impl Clone for Student {
    fn clone(&self) -> (r: Student)
        ensures
            r == *self,
    {
        Student {
            id: self.id,
            class_id: self.class_id,
            username: self.username.clone(),
            github_username: self.github_username.clone(),
            created_at: self.created_at,
        }
    }
}

impl Clone for StudentWithClass {
    fn clone(&self) -> (r: StudentWithClass)
        ensures
            r == *self,
    {
        StudentWithClass { student: self.student.clone(), class: self.class.clone() }
    }
}

impl Class {
    /// A record not yet persisted: the storage layer fills in the
    /// identifier and the creation time.
    pub fn new(name: String) -> (r: Class)
        ensures
            r.id == 0,
            r.name == name,
            r.created_at == 0,
    {
        Class { id: 0, name, created_at: 0 }
    }
}

impl Student {
    /// A record not yet persisted; the remote handle starts out equal to
    /// the username.
    pub fn new(class_id: i64, username: String) -> (r: Student)
        ensures
            r.id == 0,
            r.class_id == class_id,
            r.username@ == username@,
            r.github_username@ == username@,
            r.created_at == 0,
    {
        let github_username = username.clone();
        Student { id: 0, class_id, username, github_username, created_at: 0 }
    }
}

} // verus!
