use vstd::prelude::*;

use crate::course::models::{
    Assignment, AssignmentDto, Course, CourseDto, CourseInstructor, CourseInstructorDto,
    Enrollment, EnrollmentDto, SubmissionDto, User, UserDto, UserLogin, UserSession,
};
pub use crate::course::queries::{get_assignments, get_enrollments, get_instructor_courses, get_user};
use crate::course::queries::{
    course_assignments, enrolled_courses, find_users_with_login, first_user_named, has_user_named,
    lemma_login_users_named, taught_courses, users_with_login,
};
use crate::course::store::{CourseStore, CourseTables, CourseWrite};

verus! {

/// The user may create courses, course-instructor pairs, enrollments and assignments.
pub open spec fn is_instructor(u: User) -> bool {
    u.role@ == "instructor"@
}

/// The user sees the courses that they are enrolled in.
pub open spec fn is_student(u: User) -> bool {
    u.role@ == "student"@
}

/// The courses page: students see their enrollments, instructors the
/// courses they teach, each split into the course rows and the rows that
/// link the user to them.
#[derive(Debug, PartialEq, Eq)]
#[allow(inconsistent_fields)]
pub enum CoursesPage {
    Student { courses: Vec<Course>, data: Vec<Enrollment> },
    Instructor { courses: Vec<Course>, data: Vec<CourseInstructor> },
    Other,
}

/// `page` is the courses page of the first user named `name`.
pub open spec fn courses_page_for(t: CourseTables, name: Seq<char>, page: CoursesPage) -> bool {
    let u = first_user_named(t, name);
    match page {
        CoursesPage::Student { courses, data } => {
            let pairs = enrolled_courses(t.enrollments, t.courses, u.user_id);
            &&& is_student(u)
            &&& courses@ == pairs.map_values(|p: (Enrollment, Course)| p.1)
            &&& data@ == pairs.map_values(|p: (Enrollment, Course)| p.0)
        },
        CoursesPage::Instructor { courses, data } => {
            let pairs = taught_courses(t.course_instructors, t.courses, u.user_id);
            &&& !is_student(u)
            &&& is_instructor(u)
            &&& courses@ == pairs.map_values(|p: (CourseInstructor, Course)| p.1)
            &&& data@ == pairs.map_values(|p: (CourseInstructor, Course)| p.0)
        },
        CoursesPage::Other => !is_student(u) && !is_instructor(u),
    }
}

/// What a login answers: the login form again for an unknown user, else
/// the session cookie to set and the user's courses page.
#[derive(Debug, PartialEq, Eq)]
pub enum LoginOutcome {
    UnknownUser,
    LoggedIn { cookie: String, page: CoursesPage },
}

/// What a registration does: the row to insert and the session cookie to set.
#[derive(Debug, PartialEq, Eq)]
pub struct Registration {
    pub writes: Vec<CourseWrite>,
    pub cookie: String,
}

/// The assignments page and the user who asked for it.
#[derive(Debug, PartialEq, Eq)]
pub struct AssignmentsPage {
    pub assignments: Vec<Assignment>,
    pub user: User,
}

/// `w` when the session's user is an instructor, else nothing.
pub open spec fn instructor_only(t: CourseTables, s: UserSession, w: CourseWrite) -> Seq<CourseWrite> {
    if is_instructor(first_user_named(t, s.user_token@)) {
        seq![w]
    } else {
        seq![]
    }
}

fn has_role(u: &User, role: &str) -> (b: bool)
    ensures
        b == (u.role@ == role@),
{
    let wanted = role.to_owned();
    u.role == wanted
}

fn unzip_enrolled(pairs: &Vec<(Enrollment, Course)>) -> (r: (Vec<Enrollment>, Vec<Course>))
    ensures
        r.0@ == pairs@.map_values(|p: (Enrollment, Course)| p.0),
        r.1@ == pairs@.map_values(|p: (Enrollment, Course)| p.1),
{
    let mut firsts: Vec<Enrollment> = Vec::new();
    let mut seconds: Vec<Course> = Vec::new();
    let n = pairs.len();
    let mut i: usize = 0;
    while i < n
        invariant
            n == pairs.len(),
            i <= n,
            firsts@ == pairs@.take(i as int).map_values(|p: (Enrollment, Course)| p.0),
            seconds@ == pairs@.take(i as int).map_values(|p: (Enrollment, Course)| p.1),
        decreases n - i,
    {
        firsts.push(pairs[i].0.clone());
        seconds.push(pairs[i].1.clone());
        assert(pairs@.take(i + 1).map_values(|p: (Enrollment, Course)| p.0)
            =~= pairs@.take(i as int).map_values(|p: (Enrollment, Course)| p.0).push(pairs@[i as int].0));
        assert(pairs@.take(i + 1).map_values(|p: (Enrollment, Course)| p.1)
            =~= pairs@.take(i as int).map_values(|p: (Enrollment, Course)| p.1).push(pairs@[i as int].1));
        i = i + 1;
    }
    assert(pairs@.take(n as int) =~= pairs@);
    (firsts, seconds)
}

fn unzip_taught(pairs: &Vec<(CourseInstructor, Course)>) -> (r: (Vec<CourseInstructor>, Vec<Course>))
    ensures
        r.0@ == pairs@.map_values(|p: (CourseInstructor, Course)| p.0),
        r.1@ == pairs@.map_values(|p: (CourseInstructor, Course)| p.1),
{
    let mut firsts: Vec<CourseInstructor> = Vec::new();
    let mut seconds: Vec<Course> = Vec::new();
    let n = pairs.len();
    let mut i: usize = 0;
    while i < n
        invariant
            n == pairs.len(),
            i <= n,
            firsts@ == pairs@.take(i as int).map_values(|p: (CourseInstructor, Course)| p.0),
            seconds@ == pairs@.take(i as int).map_values(|p: (CourseInstructor, Course)| p.1),
        decreases n - i,
    {
        firsts.push(pairs[i].0.clone());
        seconds.push(pairs[i].1.clone());
        assert(pairs@.take(i + 1).map_values(|p: (CourseInstructor, Course)| p.0)
            =~= pairs@.take(i as int).map_values(|p: (CourseInstructor, Course)| p.0).push(
            pairs@[i as int].0,
        ));
        assert(pairs@.take(i + 1).map_values(|p: (CourseInstructor, Course)| p.1)
            =~= pairs@.take(i as int).map_values(|p: (CourseInstructor, Course)| p.1).push(
            pairs@[i as int].1,
        ));
        i = i + 1;
    }
    assert(pairs@.take(n as int) =~= pairs@);
    (firsts, seconds)
}

/// Logs a user in by name and email. An unknown pair gets the login form
/// again; otherwise the first matching user's name becomes the session
/// cookie and the answer is that session's courses page.
pub fn login(store: &CourseStore, user: UserLogin) -> (r: LoginOutcome)
    ensures
        ({
            let m = users_with_login(store@.users, user.username@, user.email@);
            &&& (r is UnknownUser <==> m.len() == 0)
            &&& (r matches LoginOutcome::LoggedIn { cookie, page } ==> {
                &&& cookie@ == m[0].username@
                &&& courses_page_for(store@, cookie@, page)
            })
        }),
{
    let found = find_users_with_login(&store.users, &user.username, &user.email);
    if found.len() == 0 {
        LoginOutcome::UnknownUser
    } else {
        proof {
            lemma_login_users_named(store@.users, user.username@, user.email@);
        }
        let session_id = found[0].username.clone();
        let page = view_courses(store, UserSession { user_token: found[0].username.clone() });
        LoginOutcome::LoggedIn { cookie: session_id, page }
    }
}

/// The writes of registering `user`: its row.
pub open spec fn registration_writes(user: UserDto) -> Seq<CourseWrite> {
    seq![CourseWrite::InsertUser(user)]
}

/// Registers a user: the row to insert, and the user's name as session cookie.
pub fn register(user: UserDto) -> (r: Registration)
    ensures
        r.cookie@ == user.username@,
        r.writes@ == registration_writes(user),
{
    let cookie = user.username.clone();
    let new_user = UserDto {
        username: user.username,
        email: user.email,
        name: user.name,
        role: user.role,
    };
    let mut writes: Vec<CourseWrite> = Vec::new();
    writes.push(CourseWrite::InsertUser(new_user));
    Registration { writes, cookie }
}

/// Creates a course, if the session's user is an instructor.
pub fn create_course(store: &CourseStore, course: CourseDto, user_session: UserSession) -> (r: Vec<
    CourseWrite,
>)
    requires
        has_user_named(store@, user_session.user_token@),
    ensures
        r@ == instructor_only(store@, user_session, CourseWrite::InsertCourse(course)),
{
    let current_user = get_user(store, user_session.user_token.clone());
    let mut writes: Vec<CourseWrite> = Vec::new();
    if has_role(&current_user, "instructor") {
        writes.push(CourseWrite::InsertCourse(CourseDto { name: course.name }));
    }
    writes
}

/// Links an instructor to a course, if the session's user is an instructor.
pub fn create_course_instructor(
    store: &CourseStore,
    course_instructor: CourseInstructorDto,
    user_session: UserSession,
) -> (r: Vec<CourseWrite>)
    requires
        has_user_named(store@, user_session.user_token@),
    ensures
        r@ == instructor_only(
            store@,
            user_session,
            CourseWrite::InsertCourseInstructor(course_instructor),
        ),
{
    let current_user = get_user(store, user_session.user_token.clone());
    let mut writes: Vec<CourseWrite> = Vec::new();
    if has_role(&current_user, "instructor") {
        writes.push(
            CourseWrite::InsertCourseInstructor(
                CourseInstructorDto {
                    course_id: course_instructor.course_id,
                    instructor_id: course_instructor.instructor_id,
                },
            ),
        );
    }
    writes
}

/// Enrolls a student in a course, if the session's user is an instructor.
pub fn create_enrollment(store: &CourseStore, enrollment: EnrollmentDto, user_session: UserSession) -> (r:
    Vec<CourseWrite>)
    requires
        has_user_named(store@, user_session.user_token@),
    ensures
        r@ == instructor_only(store@, user_session, CourseWrite::InsertEnrollment(enrollment)),
{
    let current_user = get_user(store, user_session.user_token.clone());
    let mut writes: Vec<CourseWrite> = Vec::new();
    if has_role(&current_user, "instructor") {
        writes.push(
            CourseWrite::InsertEnrollment(
                EnrollmentDto {
                    student_id: enrollment.student_id,
                    course_id: enrollment.course_id,
                    grade: enrollment.grade,
                },
            ),
        );
    }
    writes
}

/// Creates an assignment, if the session's user is an instructor.
pub fn create_assignment(store: &CourseStore, assignment: AssignmentDto, user_session: UserSession) -> (r:
    Vec<CourseWrite>)
    requires
        has_user_named(store@, user_session.user_token@),
    ensures
        r@ == instructor_only(store@, user_session, CourseWrite::InsertAssignment(assignment)),
{
    let current_user = get_user(store, user_session.user_token.clone());
    let mut writes: Vec<CourseWrite> = Vec::new();
    if has_role(&current_user, "instructor") {
        writes.push(
            CourseWrite::InsertAssignment(
                AssignmentDto {
                    name: assignment.name,
                    course_id: assignment.course_id,
                    description: assignment.description,
                },
            ),
        );
    }
    writes
}

/// Records a submission; any session may submit.
#[allow(unused_variables)]
pub fn create_submission(submission: SubmissionDto, user_session: UserSession) -> (r: Vec<CourseWrite>)
    ensures
        r@ == seq![CourseWrite::InsertSubmission(submission)],
{
    let mut writes: Vec<CourseWrite> = Vec::new();
    writes.push(
        CourseWrite::InsertSubmission(
            SubmissionDto {
                assignment_id: submission.assignment_id,
                author_id: submission.author_id,
                content: submission.content,
                grade: submission.grade,
            },
        ),
    );
    writes
}

/// The courses that the session's user teaches, with their course-instructor rows.
pub fn view_courses_test(store: &CourseStore, user_session: UserSession) -> (r: Vec<
    (CourseInstructor, Course),
>)
    requires
        has_user_named(store@, user_session.user_token@),
    ensures
        r@ == taught_courses(
            store@.course_instructors,
            store@.courses,
            first_user_named(store@, user_session.user_token@).user_id,
        ),
{
    let current_user = get_user(store, user_session.user_token.clone());
    get_instructor_courses(store, current_user.user_id)
}

/// The courses page of the session's user.
pub fn view_courses(store: &CourseStore, user_session: UserSession) -> (r: CoursesPage)
    requires
        has_user_named(store@, user_session.user_token@),
    ensures
        courses_page_for(store@, user_session.user_token@, r),
{
    let current_user = get_user(store, user_session.user_token.clone());
    if has_role(&current_user, "student") {
        let enrolled = get_enrollments(store, current_user.user_id);
        let (enrollment_data, course_data) = unzip_enrolled(&enrolled);
        CoursesPage::Student { courses: course_data, data: enrollment_data }
    } else if has_role(&current_user, "instructor") {
        let taught = get_instructor_courses(store, current_user.user_id);
        let (instructor_course_data, course_data) = unzip_taught(&taught);
        CoursesPage::Instructor { courses: course_data, data: instructor_course_data }
    } else {
        CoursesPage::Other
    }
}

/// The assignments page of course `input_course_id` for the session's user.
pub fn view_assignments(store: &CourseStore, input_course_id: i32, user_session: UserSession) -> (r:
    AssignmentsPage)
    requires
        has_user_named(store@, user_session.user_token@),
    ensures
        r.assignments@ == course_assignments(store@.assignments, input_course_id),
        r.user == first_user_named(store@, user_session.user_token@),
{
    let current_user = get_user(store, user_session.user_token.clone());
    let assignments = get_assignments(store, input_course_id);
    AssignmentsPage { assignments, user: current_user }
}

} // verus!
