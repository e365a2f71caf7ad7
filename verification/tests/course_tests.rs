use rsri_projects::course::models::{
    Assignment, AssignmentDto, Course, CourseDto, CourseInstructor, CourseInstructorDto,
    Enrollment, EnrollmentDto, SubmissionDto, User, UserDto, UserLogin, UserSession,
};
use rsri_projects::course::queries::{
    get_assignments, get_enrollments, get_instructor_courses, get_user,
};
use rsri_projects::course::services::{
    create_assignment, create_course, create_course_instructor, create_enrollment,
    create_submission, login, register, view_assignments, view_courses, view_courses_test,
    CoursesPage, LoginOutcome,
};
use rsri_projects::course::store::{CourseStore, CourseWrite};

fn s(x: &str) -> String {
    x.to_string()
}

fn user(id: i32, name: &str, email: &str, role: &str) -> User {
    User { user_id: id, username: s(name), email: s(email), name: s(name), role: s(role) }
}

fn course(id: i32, name: &str) -> Course {
    Course { course_id: id, name: s(name) }
}

fn session(name: &str) -> UserSession {
    UserSession { user_token: s(name) }
}

fn empty_store() -> CourseStore {
    CourseStore {
        users: vec![],
        courses: vec![],
        course_instructors: vec![],
        enrollments: vec![],
        assignments: vec![],
        submissions: vec![],
        next_user_id: 1,
        next_course_id: 1,
        next_course_instructor_id: 1,
        next_enrollment_id: 1,
        next_assignment_id: 1,
        next_submission_id: 1,
    }
}

/// alice teaches math, bob studies math and art, carol is an admin.
fn school() -> CourseStore {
    let mut st = empty_store();
    st.users = vec![
        user(1, "alice", "alice@x", "instructor"),
        user(2, "bob", "bob@x", "student"),
        user(3, "carol", "carol@x", "admin"),
    ];
    st.courses = vec![course(10, "math"), course(11, "art")];
    st.course_instructors =
        vec![CourseInstructor { course_instructor_id: 1, course_id: 10, instructor_id: 1 }];
    st.enrollments = vec![
        Enrollment { enrollment_id: 1, student_id: 2, course_id: 10, grade: s("A") },
        Enrollment { enrollment_id: 2, student_id: 3, course_id: 11, grade: s("B") },
        Enrollment { enrollment_id: 3, student_id: 2, course_id: 11, grade: s("C") },
    ];
    st.assignments = vec![
        Assignment { assignment_id: 1, name: s("hw1"), course_id: 10, description: s("d1") },
        Assignment { assignment_id: 2, name: s("hw2"), course_id: 11, description: s("d2") },
    ];
    st.next_user_id = 4;
    st.next_course_id = 12;
    st.next_course_instructor_id = 2;
    st.next_enrollment_id = 4;
    st.next_assignment_id = 3;
    st
}

#[test]
fn course_session_refuses_empty_token() {
    assert_eq!(UserSession::from_token(s("")), None);
    assert_eq!(UserSession::from_token(s("bob")), Some(session("bob")));
}

#[test]
fn login_unknown_user_gets_login_form() {
    let st = school();
    let r = login(&st, UserLogin { username: s("bob"), email: s("wrong@x") });
    assert_eq!(r, LoginOutcome::UnknownUser);
    let r = login(&st, UserLogin { username: s("nobody"), email: s("bob@x") });
    assert_eq!(r, LoginOutcome::UnknownUser);
}

#[test]
fn login_student_sees_enrolled_courses() {
    let st = school();
    let r = login(&st, UserLogin { username: s("bob"), email: s("bob@x") });
    let expected = CoursesPage::Student {
        courses: vec![course(10, "math"), course(11, "art")],
        data: vec![
            Enrollment { enrollment_id: 1, student_id: 2, course_id: 10, grade: s("A") },
            Enrollment { enrollment_id: 3, student_id: 2, course_id: 11, grade: s("C") },
        ],
    };
    assert_eq!(r, LoginOutcome::LoggedIn { cookie: s("bob"), page: expected });
}

#[test]
fn register_then_login() {
    let mut st = school();
    let reg = register(UserDto {
        username: s("dave"),
        email: s("dave@x"),
        name: s("Dave"),
        role: s("student"),
    });
    assert_eq!(reg.cookie, s("dave"));
    assert_eq!(reg.writes.len(), 1);
    st.apply_all(&reg.writes);
    assert_eq!(st.users[3], User {
        user_id: 4,
        username: s("dave"),
        email: s("dave@x"),
        name: s("Dave"),
        role: s("student"),
    });
    assert_eq!(st.next_user_id, 5);
    match login(&st, UserLogin { username: s("dave"), email: s("dave@x") }) {
        LoginOutcome::LoggedIn { cookie, page } => {
            assert_eq!(cookie, s("dave"));
            assert_eq!(page, CoursesPage::Student { courses: vec![], data: vec![] });
        },
        LoginOutcome::UnknownUser => panic!("registered user could not log in"),
    }
}

#[test]
fn login_page_is_that_of_first_user_with_the_name() {
    let mut st = school();
    // a second "bob", an instructor, with another email address
    st.users.push(user(4, "bob", "bob2@x", "instructor"));
    let r = login(&st, UserLogin { username: s("bob"), email: s("bob2@x") });
    match r {
        LoginOutcome::LoggedIn { cookie, page } => {
            assert_eq!(cookie, s("bob"));
            assert!(matches!(page, CoursesPage::Student { .. }));
        },
        LoginOutcome::UnknownUser => panic!("known user refused"),
    }
}

#[test]
fn instructor_creates_course() {
    let mut st = school();
    let ws = create_course(&st, CourseDto { name: s("music") }, session("alice"));
    assert_eq!(ws, vec![CourseWrite::InsertCourse(CourseDto { name: s("music") })]);
    st.apply_all(&ws);
    assert_eq!(st.courses[2], course(12, "music"));
}

#[test]
fn non_instructors_create_nothing() {
    let st = school();
    for who in ["bob", "carol"] {
        assert!(create_course(&st, CourseDto { name: s("music") }, session(who)).is_empty());
        assert!(create_course_instructor(
            &st,
            CourseInstructorDto { course_id: 10, instructor_id: 2 },
            session(who)
        )
        .is_empty());
        assert!(create_enrollment(
            &st,
            EnrollmentDto { student_id: 2, course_id: 10, grade: s("A") },
            session(who)
        )
        .is_empty());
        assert!(create_assignment(
            &st,
            AssignmentDto { name: s("hw3"), course_id: 10, description: s("d") },
            session(who)
        )
        .is_empty());
    }
}

#[test]
fn instructor_creates_pair_enrollment_and_assignment() {
    let st = school();
    let ci = create_course_instructor(
        &st,
        CourseInstructorDto { course_id: 11, instructor_id: 1 },
        session("alice"),
    );
    assert_eq!(ci, vec![CourseWrite::InsertCourseInstructor(CourseInstructorDto {
        course_id: 11,
        instructor_id: 1,
    })]);
    let en = create_enrollment(
        &st,
        EnrollmentDto { student_id: 3, course_id: 10, grade: s("B") },
        session("alice"),
    );
    assert_eq!(en, vec![CourseWrite::InsertEnrollment(EnrollmentDto {
        student_id: 3,
        course_id: 10,
        grade: s("B"),
    })]);
    let asg = create_assignment(
        &st,
        AssignmentDto { name: s("hw3"), course_id: 10, description: s("d3") },
        session("alice"),
    );
    assert_eq!(asg.len(), 1);
}

#[test]
fn enrollment_then_listed() {
    let mut st = school();
    let ws = create_enrollment(
        &st,
        EnrollmentDto { student_id: 3, course_id: 10, grade: s("B") },
        session("alice"),
    );
    st.apply_all(&ws);
    let pairs = get_enrollments(&st, 3);
    assert!(pairs.contains(&(
        Enrollment { enrollment_id: 4, student_id: 3, course_id: 10, grade: s("B") },
        course(10, "math")
    )));
}

#[test]
fn anyone_submits() {
    let d = SubmissionDto { assignment_id: 1, author_id: 2, content: s("answer"), grade: s("") };
    let ws = create_submission(d.clone(), session("bob"));
    assert_eq!(ws, vec![CourseWrite::InsertSubmission(d)]);
    let mut st = school();
    st.apply_all(&ws);
    assert_eq!(st.submissions.len(), 1);
    assert_eq!(st.submissions[0].submission_id, 1);
    assert_eq!(st.next_submission_id, 2);
}

#[test]
fn courses_pages_by_role() {
    let st = school();
    assert_eq!(view_courses(&st, session("alice")), CoursesPage::Instructor {
        courses: vec![course(10, "math")],
        data: vec![CourseInstructor { course_instructor_id: 1, course_id: 10, instructor_id: 1 }],
    });
    assert_eq!(view_courses(&st, session("carol")), CoursesPage::Other);
}

#[test]
fn courses_test_view_lists_taught_courses() {
    let st = school();
    assert_eq!(view_courses_test(&st, session("alice")), vec![(
        CourseInstructor { course_instructor_id: 1, course_id: 10, instructor_id: 1 },
        course(10, "math"),
    )]);
    assert!(view_courses_test(&st, session("bob")).is_empty());
}

#[test]
fn join_pairs_each_matching_course_row() {
    let mut st = school();
    st.courses.push(course(10, "math again"));
    let pairs = get_enrollments(&st, 2);
    assert_eq!(pairs.len(), 3);
    assert_eq!(pairs[0].1, course(10, "math"));
    assert_eq!(pairs[1].1, course(10, "math again"));
    assert_eq!(pairs[2].1, course(11, "art"));
    let taught = get_instructor_courses(&st, 1);
    assert_eq!(taught.len(), 2);
}

#[test]
fn enrollments_ignore_courses_that_do_not_exist() {
    let mut st = school();
    st.enrollments.push(Enrollment { enrollment_id: 9, student_id: 2, course_id: 99, grade: s("F") });
    assert_eq!(get_enrollments(&st, 2).len(), 2);
}

#[test]
fn assignments_of_the_asked_course_only() {
    let mut st = school();
    st.assignments.push(Assignment {
        assignment_id: 3,
        name: s("hw3"),
        course_id: 10,
        description: s("d3"),
    });
    let math: Vec<i32> = get_assignments(&st, 10).iter().map(|a| a.assignment_id).collect();
    assert_eq!(math, vec![1, 3]);
    assert_eq!(get_assignments(&st, 11), vec![st.assignments[1].clone()]);
    assert!(get_assignments(&st, 12345).is_empty());
    let page = view_assignments(&st, 11, session("bob"));
    assert_eq!(page.assignments, vec![st.assignments[1].clone()]);
    assert_eq!(page.user, user(2, "bob", "bob@x", "student"));
}

#[test]
fn full_key_of_one_table_does_not_block_another() {
    let mut st = school();
    st.next_user_id = i32::MAX;
    st.apply_all(&vec![CourseWrite::InsertCourse(CourseDto { name: s("music") })]);
    assert_eq!(st.courses[2], course(12, "music"));
}

#[test]
fn get_user_takes_first_of_same_name() {
    let mut st = school();
    st.users.push(user(7, "alice", "other@x", "student"));
    assert_eq!(get_user(&st, s("alice")), user(1, "alice", "alice@x", "instructor"));
}

#[test]
fn writes_take_next_ids_in_order() {
    let mut st = empty_store();
    let ws = vec![
        CourseWrite::InsertCourse(CourseDto { name: s("a") }),
        CourseWrite::InsertCourse(CourseDto { name: s("b") }),
        CourseWrite::InsertAssignment(AssignmentDto { name: s("x"), course_id: 2, description: s("") }),
    ];
    st.apply_all(&ws);
    assert_eq!(st.courses, vec![course(1, "a"), course(2, "b")]);
    assert_eq!(st.assignments[0].assignment_id, 1);
    assert_eq!(st.next_course_id, 3);
}

#[test]
fn course_store_from_tables_continues_after_largest_ids() {
    let st = CourseStore::from_tables(
        vec![user(5, "a", "a@x", "student"), user(2, "b", "b@x", "student")],
        vec![],
        vec![],
        vec![Enrollment { enrollment_id: 9, student_id: 5, course_id: 1, grade: s("A") }],
        vec![],
        vec![],
    );
    assert_eq!(st.next_user_id, 6);
    assert_eq!(st.next_course_id, 1);
    assert_eq!(st.next_enrollment_id, 10);
    assert_eq!(st.users.len(), 2);
}
