use vstd::prelude::*;

use crate::course::models::{Assignment, Course, CourseInstructor, Enrollment, User};
use crate::course::store::{CourseStore, CourseTables};

verus! {

/// Each user that a login matches carries that name and email, and then
/// some user carries the name.
pub proof fn lemma_login_users_named(users: Seq<User>, name: Seq<char>, email: Seq<char>)
    ensures
        forall|i: int|
            0 <= i < users_with_login(users, name, email).len() ==> {
                &&& (#[trigger] users_with_login(users, name, email)[i]).username@ == name
                &&& users_with_login(users, name, email)[i].email@ == email
            },
        users_with_login(users, name, email).len() > 0 ==> users_named(users, name).len() > 0,
    decreases users.len(),
{
    if users.len() > 0 {
        lemma_login_users_named(users.drop_last(), name, email);
    }
}

/// The users whose name is `name`, in table order.
pub open spec fn users_named(users: Seq<User>, name: Seq<char>) -> Seq<User>
    decreases users.len(),
{
    if users.len() == 0 {
        seq![]
    } else {
        users_named(users.drop_last(), name) + if users.last().username@ == name {
            seq![users.last()]
        } else {
            seq![]
        }
    }
}

/// The users whose name is `name` and whose email is `email`, in table order.
pub open spec fn users_with_login(users: Seq<User>, name: Seq<char>, email: Seq<char>) -> Seq<User>
    decreases users.len(),
{
    if users.len() == 0 {
        seq![]
    } else {
        users_with_login(users.drop_last(), name, email) + if users.last().username@ == name
            && users.last().email@ == email {
            seq![users.last()]
        } else {
            seq![]
        }
    }
}

/// `e` paired with each course whose id is the course id of `e`, in table order.
pub open spec fn enrollment_courses(e: Enrollment, courses: Seq<Course>) -> Seq<(Enrollment, Course)>
    decreases courses.len(),
{
    if courses.len() == 0 {
        seq![]
    } else {
        enrollment_courses(e, courses.drop_last()) + if courses.last().course_id == e.course_id {
            seq![(e, courses.last())]
        } else {
            seq![]
        }
    }
}

/// The enrollments of student `student`, each joined with its course.
pub open spec fn enrolled_courses(
    enrollments: Seq<Enrollment>,
    courses: Seq<Course>,
    student: i32,
) -> Seq<(Enrollment, Course)>
    decreases enrollments.len(),
{
    if enrollments.len() == 0 {
        seq![]
    } else {
        enrolled_courses(enrollments.drop_last(), courses, student) + if enrollments.last().student_id
            == student {
            enrollment_courses(enrollments.last(), courses)
        } else {
            seq![]
        }
    }
}

/// `ci` paired with each course whose id is the course id of `ci`, in table order.
pub open spec fn instructor_course_pairs(ci: CourseInstructor, courses: Seq<Course>) -> Seq<
    (CourseInstructor, Course),
>
    decreases courses.len(),
{
    if courses.len() == 0 {
        seq![]
    } else {
        instructor_course_pairs(ci, courses.drop_last()) + if courses.last().course_id
            == ci.course_id {
            seq![(ci, courses.last())]
        } else {
            seq![]
        }
    }
}

/// The course-instructor rows of instructor `instructor`, each joined with its course.
pub open spec fn taught_courses(
    cis: Seq<CourseInstructor>,
    courses: Seq<Course>,
    instructor: i32,
) -> Seq<(CourseInstructor, Course)>
    decreases cis.len(),
{
    if cis.len() == 0 {
        seq![]
    } else {
        taught_courses(cis.drop_last(), courses, instructor) + if cis.last().instructor_id
            == instructor {
            instructor_course_pairs(cis.last(), courses)
        } else {
            seq![]
        }
    }
}

/// The assignments of course `course_id`, in table order.
pub open spec fn course_assignments(assignments: Seq<Assignment>, course_id: i32) -> Seq<Assignment>
    decreases assignments.len(),
{
    if assignments.len() == 0 {
        seq![]
    } else {
        course_assignments(assignments.drop_last(), course_id) + if assignments.last().course_id
            == course_id {
            seq![assignments.last()]
        } else {
            seq![]
        }
    }
}

/// There is a user named `name`.
pub open spec fn has_user_named(t: CourseTables, name: Seq<char>) -> bool {
    users_named(t.users, name).len() > 0
}

/// The first user named `name`.
pub open spec fn first_user_named(t: CourseTables, name: Seq<char>) -> User {
    users_named(t.users, name)[0]
}

/// The users named `name`, in table order.
pub fn find_users_named(users: &Vec<User>, name: &String) -> (r: Vec<User>)
    ensures
        r@ == users_named(users@, name@),
{
    let mut r: Vec<User> = Vec::new();
    let n = users.len();
    let mut i: usize = 0;
    while i < n
        invariant
            n == users.len(),
            i <= n,
            r@ == users_named(users@.take(i as int), name@),
        decreases n - i,
    {
        assert(users@.take(i + 1).drop_last() =~= users@.take(i as int));
        if users[i].username == *name {
            r.push(users[i].clone());
        }
        i = i + 1;
    }
    assert(users@.take(n as int) =~= users@);
    r
}

/// The users named `name` whose email is `email`, in table order.
pub fn find_users_with_login(users: &Vec<User>, name: &String, email: &String) -> (r: Vec<User>)
    ensures
        r@ == users_with_login(users@, name@, email@),
{
    let mut r: Vec<User> = Vec::new();
    let n = users.len();
    let mut i: usize = 0;
    while i < n
        invariant
            n == users.len(),
            i <= n,
            r@ == users_with_login(users@.take(i as int), name@, email@),
        decreases n - i,
    {
        assert(users@.take(i + 1).drop_last() =~= users@.take(i as int));
        if users[i].username == *name && users[i].email == *email {
            r.push(users[i].clone());
        }
        i = i + 1;
    }
    assert(users@.take(n as int) =~= users@);
    r
}

/// The user named `user_name`; the first of them where several share the name.
pub fn get_user(store: &CourseStore, user_name: String) -> (r: User)
    requires
        has_user_named(store@, user_name@),
    ensures
        r == first_user_named(store@, user_name@),
{
    let users = find_users_named(&store.users, &user_name);
    users[0].clone()
}

/// The enrollments of the student `current_user_id`, each joined with its course.
pub fn get_enrollments(store: &CourseStore, current_user_id: i32) -> (r: Vec<(Enrollment, Course)>)
    ensures
        r@ == enrolled_courses(store.enrollments@, store.courses@, current_user_id),
{
    let es = &store.enrollments;
    let cs = &store.courses;
    let mut r: Vec<(Enrollment, Course)> = Vec::new();
    let n = es.len();
    let m = cs.len();
    let mut i: usize = 0;
    while i < n
        invariant
            n == es.len(),
            m == cs.len(),
            i <= n,
            r@ == enrolled_courses(es@.take(i as int), cs@, current_user_id),
        decreases n - i,
    {
        assert(es@.take(i + 1).drop_last() =~= es@.take(i as int));
        if es[i].student_id == current_user_id {
            let ghost before = r@;
            let mut j: usize = 0;
            while j < m
                invariant
                    n == es.len(),
                    m == cs.len(),
                    i < n,
                    j <= m,
                    r@ == before + enrollment_courses(es@[i as int], cs@.take(j as int)),
                decreases m - j,
            {
                assert(cs@.take(j + 1).drop_last() =~= cs@.take(j as int));
                if cs[j].course_id == es[i].course_id {
                    r.push((es[i].clone(), cs[j].clone()));
                }
                j = j + 1;
            }
            assert(cs@.take(m as int) =~= cs@);
        }
        i = i + 1;
    }
    assert(es@.take(n as int) =~= es@);
    r
}

/// The courses that `current_user_id` teaches, each with its course-instructor row.
pub fn get_instructor_courses(store: &CourseStore, current_user_id: i32) -> (r: Vec<
    (CourseInstructor, Course),
>)
    ensures
        r@ == taught_courses(store.course_instructors@, store.courses@, current_user_id),
{
    let cis = &store.course_instructors;
    let cs = &store.courses;
    let mut r: Vec<(CourseInstructor, Course)> = Vec::new();
    let n = cis.len();
    let m = cs.len();
    let mut i: usize = 0;
    while i < n
        invariant
            n == cis.len(),
            m == cs.len(),
            i <= n,
            r@ == taught_courses(cis@.take(i as int), cs@, current_user_id),
        decreases n - i,
    {
        assert(cis@.take(i + 1).drop_last() =~= cis@.take(i as int));
        if cis[i].instructor_id == current_user_id {
            let ghost before = r@;
            let mut j: usize = 0;
            while j < m
                invariant
                    n == cis.len(),
                    m == cs.len(),
                    i < n,
                    j <= m,
                    r@ == before + instructor_course_pairs(cis@[i as int], cs@.take(j as int)),
                decreases m - j,
            {
                assert(cs@.take(j + 1).drop_last() =~= cs@.take(j as int));
                if cs[j].course_id == cis[i].course_id {
                    r.push((cis[i].clone(), cs[j].clone()));
                }
                j = j + 1;
            }
            assert(cs@.take(m as int) =~= cs@);
        }
        i = i + 1;
    }
    assert(cis@.take(n as int) =~= cis@);
    r
}

/// The assignments of course `input_course_id`, in table order.
pub fn get_assignments(store: &CourseStore, input_course_id: i32) -> (r: Vec<Assignment>)
    ensures
        r@ == course_assignments(store.assignments@, input_course_id),
{
    let assignments = &store.assignments;
    let mut r: Vec<Assignment> = Vec::new();
    let n = assignments.len();
    let mut i: usize = 0;
    while i < n
        invariant
            n == assignments.len(),
            i <= n,
            r@ == course_assignments(assignments@.take(i as int), input_course_id),
        decreases n - i,
    {
        assert(assignments@.take(i + 1).drop_last() =~= assignments@.take(i as int));
        if assignments[i].course_id == input_course_id {
            r.push(assignments[i].clone());
        }
        i = i + 1;
    }
    assert(assignments@.take(n as int) =~= assignments@);
    r
}

} // verus!
