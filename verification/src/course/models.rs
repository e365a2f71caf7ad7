use vstd::prelude::*;

verus! {

/// A row of the `users` table.
#[derive(Debug, PartialEq, Eq)]
pub struct User {
    pub user_id: i32,
    pub username: String,
    pub email: String,
    pub name: String,
    pub role: String,
}

impl Clone for User {
    fn clone(&self) -> (r: Self)
        ensures
            r == *self,
    {
        User {
            user_id: self.user_id,
            username: self.username.clone(),
            email: self.email.clone(),
            name: self.name.clone(),
            role: self.role.clone(),
        }
    }
}

/// The form a user logs in with.
#[derive(Debug, PartialEq, Eq)]
pub struct UserLogin {
    pub username: String,
    pub email: String,
}

impl Clone for UserLogin {
    fn clone(&self) -> (r: Self)
        ensures
            r == *self,
    {
        UserLogin {
            username: self.username.clone(),
            email: self.email.clone(),
        }
    }
}

/// The fields of a user that registration inserts; the table assigns `user_id`.
#[derive(Debug, PartialEq, Eq)]
pub struct UserDto {
    pub username: String,
    pub email: String,
    pub name: String,
    pub role: String,
}

impl Clone for UserDto {
    fn clone(&self) -> (r: Self)
        ensures
            r == *self,
    {
        UserDto {
            username: self.username.clone(),
            email: self.email.clone(),
            name: self.name.clone(),
            role: self.role.clone(),
        }
    }
}

/// A row of the `courses` table.
#[derive(Debug, PartialEq, Eq)]
pub struct Course {
    pub course_id: i32,
    pub name: String,
}

impl Clone for Course {
    fn clone(&self) -> (r: Self)
        ensures
            r == *self,
    {
        Course {
            course_id: self.course_id,
            name: self.name.clone(),
        }
    }
}

/// The fields of a new course; the table assigns `course_id`.
#[derive(Debug, PartialEq, Eq)]
pub struct CourseDto {
    pub name: String,
}

impl Clone for CourseDto {
    fn clone(&self) -> (r: Self)
        ensures
            r == *self,
    {
        CourseDto {
            name: self.name.clone(),
        }
    }
}

/// A row of the `course_instructors` table: `instructor_id` teaches `course_id`.
#[derive(Debug, PartialEq, Eq)]
pub struct CourseInstructor {
    pub course_instructor_id: i32,
    pub course_id: i32,
    pub instructor_id: i32,
}

impl Clone for CourseInstructor {
    fn clone(&self) -> (r: Self)
        ensures
            r == *self,
    {
        CourseInstructor {
            course_instructor_id: self.course_instructor_id,
            course_id: self.course_id,
            instructor_id: self.instructor_id,
        }
    }
}

/// The fields of a new course-instructor pair.
#[derive(Debug, PartialEq, Eq)]
pub struct CourseInstructorDto {
    pub course_id: i32,
    pub instructor_id: i32,
}

impl Clone for CourseInstructorDto {
    fn clone(&self) -> (r: Self)
        ensures
            r == *self,
    {
        CourseInstructorDto {
            course_id: self.course_id,
            instructor_id: self.instructor_id,
        }
    }
}

/// A row of the `enrollments` table: `student_id` takes `course_id` with `grade`.
#[derive(Debug, PartialEq, Eq)]
pub struct Enrollment {
    pub enrollment_id: i32,
    pub student_id: i32,
    pub course_id: i32,
    pub grade: String,
}

impl Clone for Enrollment {
    fn clone(&self) -> (r: Self)
        ensures
            r == *self,
    {
        Enrollment {
            enrollment_id: self.enrollment_id,
            student_id: self.student_id,
            course_id: self.course_id,
            grade: self.grade.clone(),
        }
    }
}

/// The fields of a new enrollment.
#[derive(Debug, PartialEq, Eq)]
pub struct EnrollmentDto {
    pub student_id: i32,
    pub course_id: i32,
    pub grade: String,
}

impl Clone for EnrollmentDto {
    fn clone(&self) -> (r: Self)
        ensures
            r == *self,
    {
        EnrollmentDto {
            student_id: self.student_id,
            course_id: self.course_id,
            grade: self.grade.clone(),
        }
    }
}

/// An enrollment combined with the name of its course.
#[derive(Debug, PartialEq, Eq)]
pub struct EnrolledCourses {
    pub student_id: i32,
    pub course_id: i32,
    pub grade: String,
    pub name: String,
}

impl Clone for EnrolledCourses {
    fn clone(&self) -> (r: Self)
        ensures
            r == *self,
    {
        EnrolledCourses {
            student_id: self.student_id,
            course_id: self.course_id,
            grade: self.grade.clone(),
            name: self.name.clone(),
        }
    }
}

/// A row of the `assignments` table.
#[derive(Debug, PartialEq, Eq)]
pub struct Assignment {
    pub assignment_id: i32,
    pub name: String,
    pub course_id: i32,
    pub description: String,
}

impl Clone for Assignment {
    fn clone(&self) -> (r: Self)
        ensures
            r == *self,
    {
        Assignment {
            assignment_id: self.assignment_id,
            name: self.name.clone(),
            course_id: self.course_id,
            description: self.description.clone(),
        }
    }
}

/// The fields of a new assignment.
#[derive(Debug, PartialEq, Eq)]
pub struct AssignmentDto {
    pub name: String,
    pub course_id: i32,
    pub description: String,
}

impl Clone for AssignmentDto {
    fn clone(&self) -> (r: Self)
        ensures
            r == *self,
    {
        AssignmentDto {
            name: self.name.clone(),
            course_id: self.course_id,
            description: self.description.clone(),
        }
    }
}

/// A row of the `submissions` table.
#[derive(Debug, PartialEq, Eq)]
pub struct Submission {
    pub submission_id: i32,
    pub assignment_id: i32,
    pub author_id: i32,
    pub content: String,
    pub grade: String,
}

impl Clone for Submission {
    fn clone(&self) -> (r: Self)
        ensures
            r == *self,
    {
        Submission {
            submission_id: self.submission_id,
            assignment_id: self.assignment_id,
            author_id: self.author_id,
            content: self.content.clone(),
            grade: self.grade.clone(),
        }
    }
}

/// The fields of a new submission.
#[derive(Debug, PartialEq, Eq)]
pub struct SubmissionDto {
    pub assignment_id: i32,
    pub author_id: i32,
    pub content: String,
    pub grade: String,
}

impl Clone for SubmissionDto {
    fn clone(&self) -> (r: Self)
        ensures
            r == *self,
    {
        SubmissionDto {
            assignment_id: self.assignment_id,
            author_id: self.author_id,
            content: self.content.clone(),
            grade: self.grade.clone(),
        }
    }
}

/// A session carried by the `username` cookie: the token is the user's name.
#[derive(Debug, PartialEq, Eq)]
pub struct UserSession {
    pub user_token: String,
}

impl UserSession {
    /// The session for a cookie value; an empty value is refused
    /// (the request is then unauthorized).
    pub fn from_token(token: String) -> (r: Option<UserSession>)
        ensures
            r is None <==> token@.len() == 0,
            r matches Some(s) ==> s.user_token@ == token@,
    {
        if token.as_str().is_empty() {
            None
        } else {
            Some(UserSession { user_token: token })
        }
    }
}

} // verus!
