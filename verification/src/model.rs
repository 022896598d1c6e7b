//! Courses and course groups: the data the listing cache serves, and the
//! request/response shapes around them.

use vstd::prelude::*;
use vstd::string::StrSliceExecFns;

verus! {

use crate::review::GetReview;

/// The stable cross-year course code behind a year/semester-qualified
/// course number: the number with its trailing three characters removed. A
/// number too short to carry a code yields nothing.
pub fn course_code_of(no: &str) -> (r: Option<String>)
    ensures
        no@.len() > 3 ==> (r matches Some(code) && code@ == no@.subrange(0, no@.len() - 3)),
        no@.len() <= 3 ==> r is None,
{
    let n = no.unicode_len();
    if n <= 3 {
        None
    } else {
        Some(no.substring_char(0, n - 3).to_owned())
    }
}

/// The identity that the external authentication service reports for a
/// bearer credential.
#[derive(Debug, Clone, Copy, PartialEq, Eq, Structural)]
pub struct UserInfo {
    pub id: i32,
    pub is_admin: bool,
}

/// A request body asking to create a course offering.
#[derive(Debug, Clone)]
pub struct NewCourse {
    pub name: String,
    pub code: String,
    pub code_id: String,
    pub department: String,
    pub teachers: String,
    pub credit: i64,
    pub max_student: i32,
    pub week_hour: i32,
    pub year: i32,
    pub semester: i32,
    pub campus_name: String,
}

/// A course offering: one year/semester instance of a course code.
#[derive(Debug, Clone)]
pub struct Course {
    pub id: i32,
    pub coursegroup_id: i32,
    pub name: String,
    pub code: String,
    pub code_id: String,
    pub department: String,
    pub teachers: String,
    pub credit: i64,
    pub max_student: i32,
    pub week_hour: i32,
    pub year: i32,
    pub semester: i32,
    pub campus_name: String,
}

/// The stored course built from a creation request.
pub open spec fn course_from_new(nc: NewCourse, id: i32, coursegroup_id: i32) -> Course {
    Course {
        id,
        coursegroup_id,
        name: nc.name,
        code: nc.code,
        code_id: nc.code_id,
        department: nc.department,
        teachers: nc.teachers,
        credit: nc.credit,
        max_student: nc.max_student,
        week_hour: nc.week_hour,
        year: nc.year,
        semester: nc.semester,
        campus_name: nc.campus_name,
    }
}

impl Course {
    /// Builds the stored course for a creation request.
    pub fn from_new(nc: NewCourse, id: i32, coursegroup_id: i32) -> (c: Course)
        ensures
            c == course_from_new(nc, id, coursegroup_id),
    {
        Course {
            id,
            coursegroup_id,
            name: nc.name,
            code: nc.code,
            code_id: nc.code_id,
            department: nc.department,
            teachers: nc.teachers,
            credit: nc.credit,
            max_student: nc.max_student,
            week_hour: nc.week_hour,
            year: nc.year,
            semester: nc.semester,
            campus_name: nc.campus_name,
        }
    }
}

impl Course {
    /// An exact copy of this course.
    pub fn duplicate(&self) -> (c: Course)
        ensures
            c == *self,
    {
        Course {
            id: self.id,
            coursegroup_id: self.coursegroup_id,
            name: self.name.clone(),
            code: self.code.clone(),
            code_id: self.code_id.clone(),
            department: self.department.clone(),
            teachers: self.teachers.clone(),
            credit: self.credit,
            max_student: self.max_student,
            week_hour: self.week_hour,
            year: self.year,
            semester: self.semester,
            campus_name: self.campus_name.clone(),
        }
    }
}

/// A course group: the offerings sharing one stable course code, created
/// implicitly when the first course with a new code is added.
#[derive(Debug, Clone)]
pub struct CourseGroup {
    pub id: i32,
    pub name: String,
    pub code: String,
    pub department: String,
    pub campus_name: String,
    pub courses: Vec<Course>,
}

impl CourseGroup {
    /// Grouping invariant: every owned course carries this group's code and
    /// points back at this group.
    pub open spec fn wf(self) -> bool {
        forall|j: int|
            0 <= j < self.courses@.len() ==> (#[trigger] self.courses@[j]).code@ == self.code@
                && self.courses@[j].coursegroup_id == self.id
    }
}

/// The group implicitly created for the first course with a new code: it
/// takes the course's name, code, department and campus, and holds exactly
/// that one course.
pub open spec fn is_group_from_new(g: CourseGroup, nc: NewCourse, group_id: i32, course_id: i32) -> bool {
    &&& g.id == group_id
    &&& g.name == nc.name
    &&& g.code == nc.code
    &&& g.department == nc.department
    &&& g.campus_name == nc.campus_name
    &&& g.courses@ == seq![course_from_new(nc, course_id, group_id)]
}

/// The relation between a group and the same group with one course
/// appended: every descriptive field kept, the course list extended by
/// exactly that course.
pub open spec fn is_group_plus_course(post: CourseGroup, pre: CourseGroup, c: Course) -> bool {
    &&& post.id == pre.id
    &&& post.name == pre.name
    &&& post.code == pre.code
    &&& post.department == pre.department
    &&& post.campus_name == pre.campus_name
    &&& post.courses@ == pre.courses@.push(c)
}

/// A course with its reviews preloaded for one reader.
#[derive(Debug, Clone)]
pub struct GetSingleCourse {
    pub course: Course,
    pub review_list: Vec<GetReview>,
}

/// A course group with courses and reviews preloaded for one reader.
#[derive(Debug, Clone)]
pub struct GetSingleCourseGroup {
    pub id: i32,
    pub name: String,
    pub code: String,
    pub department: String,
    pub campus_name: String,
    pub course_list: Vec<GetSingleCourse>,
}

/// The `{hash}` body served for the cache fingerprint.
#[derive(Debug, Clone)]
pub struct HashMessage {
    pub hash: String,
}

} // verus!
