use vstd::prelude::*;

use crate::serial::{ids_of, next_id, next_id_after, SerialRow};
use crate::course::models::{
    Assignment, AssignmentDto, Course, CourseDto, CourseInstructor, CourseInstructorDto,
    Enrollment, EnrollmentDto, Submission, SubmissionDto, User, UserDto,
};

verus! {

/// The contents of the course database: one sequence of rows per table, in
/// the order in which they are read, and the id that the next insert into
/// each table receives. The next ids are the library's model of the serial
/// keys (see `from_tables`); the database's sequences may give other ids,
/// for instance after deletions or refused inserts.
#[verifier::ext_equal]
pub struct CourseTables {
    pub users: Seq<User>,
    pub courses: Seq<Course>,
    pub course_instructors: Seq<CourseInstructor>,
    pub enrollments: Seq<Enrollment>,
    pub assignments: Seq<Assignment>,
    pub submissions: Seq<Submission>,
    pub next_user_id: int,
    pub next_course_id: int,
    pub next_course_instructor_id: int,
    pub next_enrollment_id: int,
    pub next_assignment_id: int,
    pub next_submission_id: int,
}

/// The course database as the services read it.
#[derive(Debug, PartialEq, Eq)]
pub struct CourseStore {
    pub users: Vec<User>,
    pub courses: Vec<Course>,
    pub course_instructors: Vec<CourseInstructor>,
    pub enrollments: Vec<Enrollment>,
    pub assignments: Vec<Assignment>,
    pub submissions: Vec<Submission>,
    pub next_user_id: i32,
    pub next_course_id: i32,
    pub next_course_instructor_id: i32,
    pub next_enrollment_id: i32,
    pub next_assignment_id: i32,
    pub next_submission_id: i32,
}

impl View for CourseStore {
    type V = CourseTables;

    open spec fn view(&self) -> CourseTables {
        CourseTables {
            users: self.users@,
            courses: self.courses@,
            course_instructors: self.course_instructors@,
            enrollments: self.enrollments@,
            assignments: self.assignments@,
            submissions: self.submissions@,
            next_user_id: self.next_user_id as int,
            next_course_id: self.next_course_id as int,
            next_course_instructor_id: self.next_course_instructor_id as int,
            next_enrollment_id: self.next_enrollment_id as int,
            next_assignment_id: self.next_assignment_id as int,
            next_submission_id: self.next_submission_id as int,
        }
    }
}

/// A change that a service asks of the course database.
#[derive(Debug, PartialEq, Eq)]
pub enum CourseWrite {
    InsertUser(UserDto),
    InsertCourse(CourseDto),
    InsertCourseInstructor(CourseInstructorDto),
    InsertEnrollment(EnrollmentDto),
    InsertAssignment(AssignmentDto),
    InsertSubmission(SubmissionDto),
}

impl Clone for CourseWrite {
    fn clone(&self) -> (r: Self)
        ensures
            r == *self,
    {
        match self {
            CourseWrite::InsertUser(d) => CourseWrite::InsertUser(d.clone()),
            CourseWrite::InsertCourse(d) => CourseWrite::InsertCourse(d.clone()),
            CourseWrite::InsertCourseInstructor(d) => CourseWrite::InsertCourseInstructor(d.clone()),
            CourseWrite::InsertEnrollment(d) => CourseWrite::InsertEnrollment(d.clone()),
            CourseWrite::InsertAssignment(d) => CourseWrite::InsertAssignment(d.clone()),
            CourseWrite::InsertSubmission(d) => CourseWrite::InsertSubmission(d.clone()),
        }
    }
}

impl CourseTables {
    /// The database takes `w`: the table that `w` inserts into still has an
    /// id to give, and the rows that the inserted row refers to exist (an
    /// instructor's or enrollment's course and user, an assignment's course,
    /// a submission's assignment and author).
    pub open spec fn can_apply(self, w: CourseWrite) -> bool {
        match w {
            CourseWrite::InsertUser(_) => self.next_user_id < i32::MAX,
            CourseWrite::InsertCourse(_) => self.next_course_id < i32::MAX,
            CourseWrite::InsertCourseInstructor(d) => {
                &&& self.next_course_instructor_id < i32::MAX
                &&& self.has_course(d.course_id)
                &&& self.has_user(d.instructor_id)
            },
            CourseWrite::InsertEnrollment(d) => {
                &&& self.next_enrollment_id < i32::MAX
                &&& self.has_course(d.course_id)
                &&& self.has_user(d.student_id)
            },
            CourseWrite::InsertAssignment(d) => {
                &&& self.next_assignment_id < i32::MAX
                &&& self.has_course(d.course_id)
            },
            CourseWrite::InsertSubmission(d) => {
                &&& self.next_submission_id < i32::MAX
                &&& self.has_assignment(d.assignment_id)
                &&& self.has_user(d.author_id)
            },
        }
    }

    /// Some user has id `user_id`.
    pub open spec fn has_user(self, user_id: i32) -> bool {
        exists|k: int| 0 <= k < self.users.len() && (#[trigger] self.users[k]).user_id == user_id
    }

    /// Some course has id `course_id`.
    pub open spec fn has_course(self, course_id: i32) -> bool {
        exists|k: int|
            0 <= k < self.courses.len() && (#[trigger] self.courses[k]).course_id == course_id
    }

    /// Some assignment has id `assignment_id`.
    pub open spec fn has_assignment(self, assignment_id: i32) -> bool {
        exists|k: int|
            0 <= k < self.assignments.len() && (#[trigger] self.assignments[k]).assignment_id
                == assignment_id
    }
}

/// The database after `w`: an insert appends a row that carries the table's
/// next id and the inserted fields.
pub open spec fn apply_write(t: CourseTables, w: CourseWrite) -> CourseTables {
    match w {
        CourseWrite::InsertUser(d) => CourseTables {
            users: t.users.push(
                User {
                    user_id: t.next_user_id as i32,
                    username: d.username,
                    email: d.email,
                    name: d.name,
                    role: d.role,
                },
            ),
            next_user_id: t.next_user_id + 1,
            ..t
        },
        CourseWrite::InsertCourse(d) => CourseTables {
            courses: t.courses.push(Course { course_id: t.next_course_id as i32, name: d.name }),
            next_course_id: t.next_course_id + 1,
            ..t
        },
        CourseWrite::InsertCourseInstructor(d) => CourseTables {
            course_instructors: t.course_instructors.push(
                CourseInstructor {
                    course_instructor_id: t.next_course_instructor_id as i32,
                    course_id: d.course_id,
                    instructor_id: d.instructor_id,
                },
            ),
            next_course_instructor_id: t.next_course_instructor_id + 1,
            ..t
        },
        CourseWrite::InsertEnrollment(d) => CourseTables {
            enrollments: t.enrollments.push(
                Enrollment {
                    enrollment_id: t.next_enrollment_id as i32,
                    student_id: d.student_id,
                    course_id: d.course_id,
                    grade: d.grade,
                },
            ),
            next_enrollment_id: t.next_enrollment_id + 1,
            ..t
        },
        CourseWrite::InsertAssignment(d) => CourseTables {
            assignments: t.assignments.push(
                Assignment {
                    assignment_id: t.next_assignment_id as i32,
                    name: d.name,
                    course_id: d.course_id,
                    description: d.description,
                },
            ),
            next_assignment_id: t.next_assignment_id + 1,
            ..t
        },
        CourseWrite::InsertSubmission(d) => CourseTables {
            submissions: t.submissions.push(
                Submission {
                    submission_id: t.next_submission_id as i32,
                    assignment_id: d.assignment_id,
                    author_id: d.author_id,
                    content: d.content,
                    grade: d.grade,
                },
            ),
            next_submission_id: t.next_submission_id + 1,
            ..t
        },
    }
}

/// The database after the writes `ws`, in order.
pub open spec fn apply_writes(t: CourseTables, ws: Seq<CourseWrite>) -> CourseTables
    decreases ws.len(),
{
    if ws.len() == 0 {
        t
    } else {
        apply_write(apply_writes(t, ws.drop_last()), ws.last())
    }
}

/// The database takes each of the writes `ws` in turn: each insert finds
/// an id left in its table.
pub open spec fn writes_allowed(t: CourseTables, ws: Seq<CourseWrite>) -> bool
    decreases ws.len(),
{
    if ws.len() == 0 {
        true
    } else {
        writes_allowed(t, ws.drop_last()) && apply_writes(t, ws.drop_last()).can_apply(ws.last())
    }
}

/// A prefix of writes that the database takes is taken too.
pub proof fn lemma_writes_allowed_prefix(t: CourseTables, ws: Seq<CourseWrite>, k: int)
    requires
        writes_allowed(t, ws),
        0 <= k <= ws.len(),
    ensures
        writes_allowed(t, ws.take(k)),
    decreases ws.len(),
{
    if k == ws.len() {
        assert(ws.take(k) =~= ws);
    } else {
        lemma_writes_allowed_prefix(t, ws.drop_last(), k);
        assert(ws.drop_last().take(k) =~= ws.take(k));
    }
}

/// One write, as a sequence, acts as that write and is taken when it is.
pub proof fn lemma_apply_single(t: CourseTables, w: CourseWrite)
    ensures
        apply_writes(t, seq![w]) == apply_write(t, w),
        writes_allowed(t, seq![w]) == t.can_apply(w),
{
    let ws = seq![w];
    assert(ws.drop_last() =~= Seq::<CourseWrite>::empty());
    assert(apply_writes(t, ws.drop_last()) == t);
    assert(writes_allowed(t, ws.drop_last()));
    assert(ws.last() == w);
}

impl SerialRow for User {
    open spec fn serial_id(&self) -> i32 {
        self.user_id
    }

    fn id(&self) -> (r: i32) {
        self.user_id
    }
}

impl SerialRow for Course {
    open spec fn serial_id(&self) -> i32 {
        self.course_id
    }

    fn id(&self) -> (r: i32) {
        self.course_id
    }
}

impl SerialRow for CourseInstructor {
    open spec fn serial_id(&self) -> i32 {
        self.course_instructor_id
    }

    fn id(&self) -> (r: i32) {
        self.course_instructor_id
    }
}

impl SerialRow for Enrollment {
    open spec fn serial_id(&self) -> i32 {
        self.enrollment_id
    }

    fn id(&self) -> (r: i32) {
        self.enrollment_id
    }
}

impl SerialRow for Assignment {
    open spec fn serial_id(&self) -> i32 {
        self.assignment_id
    }

    fn id(&self) -> (r: i32) {
        self.assignment_id
    }
}

impl SerialRow for Submission {
    open spec fn serial_id(&self) -> i32 {
        self.submission_id
    }

    fn id(&self) -> (r: i32) {
        self.submission_id
    }
}

impl CourseStore {
    /// The store of the given tables. Each table's next id is modelled as
    /// one more than the largest id it holds.
    pub fn from_tables(
        users: Vec<User>,
        courses: Vec<Course>,
        course_instructors: Vec<CourseInstructor>,
        enrollments: Vec<Enrollment>,
        assignments: Vec<Assignment>,
        submissions: Vec<Submission>,
    ) -> (r: CourseStore)
        ensures
            r.users@ == users@,
            r.next_user_id == next_id_after(ids_of(users@)),
            r.courses@ == courses@,
            r.next_course_id == next_id_after(ids_of(courses@)),
            r.course_instructors@ == course_instructors@,
            r.next_course_instructor_id == next_id_after(ids_of(course_instructors@)),
            r.enrollments@ == enrollments@,
            r.next_enrollment_id == next_id_after(ids_of(enrollments@)),
            r.assignments@ == assignments@,
            r.next_assignment_id == next_id_after(ids_of(assignments@)),
            r.submissions@ == submissions@,
            r.next_submission_id == next_id_after(ids_of(submissions@)),
    {
        let next_user_id = next_id(&users);
        let next_course_id = next_id(&courses);
        let next_course_instructor_id = next_id(&course_instructors);
        let next_enrollment_id = next_id(&enrollments);
        let next_assignment_id = next_id(&assignments);
        let next_submission_id = next_id(&submissions);
        CourseStore {
            users,
            courses,
            course_instructors,
            enrollments,
            assignments,
            submissions,
            next_user_id,
            next_course_id,
            next_course_instructor_id,
            next_enrollment_id,
            next_assignment_id,
            next_submission_id,
        }
    }

    /// Performs one write.
    pub fn apply(&mut self, w: CourseWrite)
        requires
            old(self)@.can_apply(w),
        ensures
            final(self)@ == apply_write(old(self)@, w),
    {
        match w {
            CourseWrite::InsertUser(d) => {
                let id = self.next_user_id;
                self.users.push(
                    User { user_id: id, username: d.username, email: d.email, name: d.name, role: d.role },
                );
                self.next_user_id = id + 1;
            },
            CourseWrite::InsertCourse(d) => {
                let id = self.next_course_id;
                self.courses.push(Course { course_id: id, name: d.name });
                self.next_course_id = id + 1;
            },
            CourseWrite::InsertCourseInstructor(d) => {
                let id = self.next_course_instructor_id;
                self.course_instructors.push(
                    CourseInstructor {
                        course_instructor_id: id,
                        course_id: d.course_id,
                        instructor_id: d.instructor_id,
                    },
                );
                self.next_course_instructor_id = id + 1;
            },
            CourseWrite::InsertEnrollment(d) => {
                let id = self.next_enrollment_id;
                self.enrollments.push(
                    Enrollment {
                        enrollment_id: id,
                        student_id: d.student_id,
                        course_id: d.course_id,
                        grade: d.grade,
                    },
                );
                self.next_enrollment_id = id + 1;
            },
            CourseWrite::InsertAssignment(d) => {
                let id = self.next_assignment_id;
                self.assignments.push(
                    Assignment {
                        assignment_id: id,
                        name: d.name,
                        course_id: d.course_id,
                        description: d.description,
                    },
                );
                self.next_assignment_id = id + 1;
            },
            CourseWrite::InsertSubmission(d) => {
                let id = self.next_submission_id;
                self.submissions.push(
                    Submission {
                        submission_id: id,
                        assignment_id: d.assignment_id,
                        author_id: d.author_id,
                        content: d.content,
                        grade: d.grade,
                    },
                );
                self.next_submission_id = id + 1;
            },
        }
    }

    /// Performs the writes in order.
    pub fn apply_all(&mut self, ws: &Vec<CourseWrite>)
        requires
            writes_allowed(old(self)@, ws@),
        ensures
            final(self)@ == apply_writes(old(self)@, ws@),
    {
        let n = ws.len();
        let mut i: usize = 0;
        while i < n
            invariant
                n == ws.len(),
                i <= n,
                writes_allowed(old(self)@, ws@),
                self@ == apply_writes(old(self)@, ws@.take(i as int)),
            decreases n - i,
        {
            proof {
                lemma_writes_allowed_prefix(old(self)@, ws@, i as int + 1);
                assert(ws@.take(i + 1).drop_last() =~= ws@.take(i as int));
            }
            let w = ws[i].clone();
            self.apply(w);
            i = i + 1;
        }
        assert(ws@.take(n as int) =~= ws@);
    }
}

} // verus!
