use vstd::prelude::*;

use crate::selection::lemma_filter_selects;
use crate::course::queries::course_assignments;
use crate::course::models::Assignment;

use crate::course::models::{Course, CourseInstructor, Enrollment, EnrollmentDto, User, UserDto, UserSession};
use crate::course::queries::{
    enrolled_courses, enrollment_courses, instructor_course_pairs, taught_courses, first_user_named, has_user_named, users_named, lemma_login_users_named,
    users_with_login,
};
use crate::course::services::{instructor_only, is_instructor, registration_writes};
use crate::course::store::{apply_write, apply_writes, lemma_apply_single, CourseTables, CourseWrite};

verus! {

/// A user who registers can then log in with the same name and email, and
/// the session cookie that the login sets is the registered name.
pub proof fn law_register_then_login(t: CourseTables, user: UserDto)
    requires
        t.can_apply(CourseWrite::InsertUser(user)),
    ensures
        ({
            let after = apply_writes(t, registration_writes(user));
            let m = users_with_login(after.users, user.username@, user.email@);
            &&& m.len() > 0
            &&& m[0].username@ == user.username@
        }),
{
    lemma_apply_single(t, CourseWrite::InsertUser(user));
    let after = apply_writes(t, registration_writes(user));
    assert(after.users.drop_last() =~= t.users);
    lemma_login_users_named(after.users, user.username@, user.email@);
}

/// A create request of a user who is not an instructor changes nothing; an
/// instructor's request performs exactly the asked write.
pub proof fn law_only_instructors_create(t: CourseTables, s: UserSession, w: CourseWrite)
    ensures
        !is_instructor(first_user_named(t, s.user_token@)) ==> apply_writes(
            t,
            instructor_only(t, s, w),
        ) == t,
        is_instructor(first_user_named(t, s.user_token@)) ==> apply_writes(
            t,
            instructor_only(t, s, w),
        ) == apply_write(t, w),
{
    lemma_apply_single(t, w);
}

proof fn lemma_users_named_names(users: Seq<User>, name: Seq<char>)
    ensures
        forall|i: int|
            0 <= i < users_named(users, name).len() ==> (#[trigger] users_named(users, name)[i]).username@
                == name,
    decreases users.len(),
{
    if users.len() > 0 {
        let rest = users.drop_last();
        lemma_users_named_names(rest, name);
        let m = users_named(users, name);
        let before = users_named(rest, name);
        assert forall|i: int| 0 <= i < m.len() implies (#[trigger] m[i]).username@ == name by {
            if i < before.len() {
                assert(m[i] == before[i]);
            }
        }
    }
}

/// The session's user carries the session's name.
pub proof fn law_session_user_named(t: CourseTables, name: Seq<char>)
    requires
        has_user_named(t, name),
    ensures
        first_user_named(t, name).username@ == name,
{
    lemma_users_named_names(t.users, name);
}

proof fn lemma_enrollment_courses_complete(e: Enrollment, courses: Seq<Course>, c: Course)
    requires
        courses.contains(c),
        c.course_id == e.course_id,
    ensures
        enrollment_courses(e, courses).contains((e, c)),
    decreases courses.len(),
{
    let rest = courses.drop_last();
    if courses.last() == c {
        let pairs = enrollment_courses(e, courses);
        assert(pairs[pairs.len() - 1] == (e, c));
    } else {
        let k = choose|k: int| 0 <= k < courses.len() && courses[k] == c;
        assert(rest[k] == c);
        lemma_enrollment_courses_complete(e, rest, c);
        let pairs = enrollment_courses(e, rest);
        let j = choose|j: int| 0 <= j < pairs.len() && pairs[j] == (e, c);
        assert(enrollment_courses(e, courses)[j] == (e, c));
    }
}

proof fn lemma_enrollment_courses_sound(e: Enrollment, courses: Seq<Course>)
    ensures
        forall|i: int|
            0 <= i < enrollment_courses(e, courses).len() ==> {
                &&& (#[trigger] enrollment_courses(e, courses)[i]).0 == e
                &&& courses.contains(enrollment_courses(e, courses)[i].1)
                &&& enrollment_courses(e, courses)[i].1.course_id == e.course_id
            },
    decreases courses.len(),
{
    if courses.len() > 0 {
        let rest = courses.drop_last();
        lemma_enrollment_courses_sound(e, rest);
        let pairs = enrollment_courses(e, courses);
        assert forall|i: int| 0 <= i < pairs.len() implies {
            &&& (#[trigger] pairs[i]).0 == e
            &&& courses.contains(pairs[i].1)
            &&& pairs[i].1.course_id == e.course_id
        } by {
            let before = enrollment_courses(e, rest);
            if i < before.len() {
                assert(pairs[i] == before[i]);
                let k = choose|k: int| 0 <= k < rest.len() && rest[k] == before[i].1;
                assert(courses[k] == rest[k]);
            } else {
                assert(courses[courses.len() - 1] == courses.last());
            }
        }
    }
}

/// The student's listed courses are exactly the joins of the student's
/// enrollments with the courses whose id they name: every listed pair is
/// such a join, and every such join is listed.
pub proof fn law_enrollments_join(enrollments: Seq<Enrollment>, courses: Seq<Course>, student: i32)
    ensures
        forall|i: int|
            0 <= i < enrolled_courses(enrollments, courses, student).len() ==> {
                let p = #[trigger] enrolled_courses(enrollments, courses, student)[i];
                &&& p.0.student_id == student
                &&& enrollments.contains(p.0)
                &&& courses.contains(p.1)
                &&& p.1.course_id == p.0.course_id
            },
        forall|e: Enrollment, c: Course|
            enrollments.contains(e) && courses.contains(c) && e.student_id == student
                && c.course_id == e.course_id ==> #[trigger] enrolled_courses(
                enrollments,
                courses,
                student,
            ).contains((e, c)),
    decreases enrollments.len(),
{
    if enrollments.len() > 0 {
        let rest = enrollments.drop_last();
        let last = enrollments.last();
        law_enrollments_join(rest, courses, student);
        lemma_enrollment_courses_sound(last, courses);
        let all = enrolled_courses(enrollments, courses, student);
        let before = enrolled_courses(rest, courses, student);
        assert(all == before + if last.student_id == student {
            enrollment_courses(last, courses)
        } else {
            seq![]
        });
        assert forall|i: int| 0 <= i < all.len() implies {
            let p = #[trigger] all[i];
            &&& p.0.student_id == student
            &&& enrollments.contains(p.0)
            &&& courses.contains(p.1)
            &&& p.1.course_id == p.0.course_id
        } by {
            if i < before.len() {
                assert(all[i] == before[i]);
                let k = choose|k: int| 0 <= k < rest.len() && rest[k] == before[i].0;
                assert(enrollments[k] == rest[k]);
            } else {
                let tail = enrollment_courses(last, courses);
                assert(all[i] == tail[i - before.len()]);
                assert(enrollments[enrollments.len() - 1] == last);
            }
        }
        assert forall|e: Enrollment, c: Course|
            enrollments.contains(e) && courses.contains(c) && e.student_id == student
                && c.course_id == e.course_id implies #[trigger] enrolled_courses(
            enrollments,
            courses,
            student,
        ).contains((e, c)) by {
            if e == last {
                lemma_enrollment_courses_complete(e, courses, c);
                let tail = enrollment_courses(last, courses);
                let j = choose|j: int| 0 <= j < tail.len() && tail[j] == (e, c);
                assert(all[before.len() + j] == (e, c));
            } else {
                let k = choose|k: int| 0 <= k < enrollments.len() && enrollments[k] == e;
                assert(rest[k] == e);
                assert(rest.contains(e));
                assert(before.contains((e, c)));
                let j = choose|j: int| 0 <= j < before.len() && before[j] == (e, c);
                assert(all[j] == (e, c));
            }
        }
    }
}

/// After an instructor enrolls a student in a course that exists, the
/// student's enrollments, joined with their courses, list the new
/// enrollment row with that course.
pub proof fn law_enrollment_then_listed(
    t: CourseTables,
    s: UserSession,
    e: EnrollmentDto,
    c: Course,
)
    requires
        is_instructor(first_user_named(t, s.user_token@)),
        t.can_apply(CourseWrite::InsertEnrollment(e)),
        t.courses.contains(c),
        c.course_id == e.course_id,
    ensures
        ({
            let after = apply_writes(t, instructor_only(t, s, CourseWrite::InsertEnrollment(e)));
            let row = Enrollment {
                enrollment_id: t.next_enrollment_id as i32,
                student_id: e.student_id,
                course_id: e.course_id,
                grade: e.grade,
            };
            enrolled_courses(after.enrollments, after.courses, e.student_id).contains((row, c))
        }),
{
    let w = CourseWrite::InsertEnrollment(e);
    law_only_instructors_create(t, s, w);
    let after = apply_write(t, w);
    let row = Enrollment {
        enrollment_id: t.next_enrollment_id as i32,
        student_id: e.student_id,
        course_id: e.course_id,
        grade: e.grade,
    };
    assert(after.enrollments == t.enrollments.push(row));
    assert(after.enrollments[after.enrollments.len() - 1] == row);
    law_enrollments_join(after.enrollments, after.courses, e.student_id);
}

/// The users named `name` are exactly the table's users with that name, in table order.
pub proof fn law_users_named_selects(users: Seq<User>, name: Seq<char>)
    ensures
        users_named(users, name) == users.filter(|x: User| x.username@ == name),
        forall|i: int|
            0 <= i < users_named(users, name).len() ==> (#[trigger] users_named(users, name)[i]).username@ == name && users.contains(
                users_named(users, name)[i],
            ),
        forall|i: int|
            0 <= i < users.len() && users[i].username@ == name ==> users_named(users, name).contains(
                #[trigger] users[i],
            ),
        users_named(users, name).len() > 0 <==> exists|k: int|
            0 <= k < users.len() && (#[trigger] users[k]).username@ == name,
    decreases users.len(),
{
    reveal(Seq::filter);
    let p = |x: User| x.username@ == name;
    if users.len() > 0 {
        let rest = users.drop_last();
        law_users_named_selects(rest, name);
        assert(users_named(users, name) =~= users.filter(p));
    }
    lemma_filter_selects(users, p);
}

/// The users that a login matches are exactly the table's users with that name and email address, in table order; some user matches exactly when some row has both.
pub proof fn law_users_with_login_selects(users: Seq<User>, name: Seq<char>, email: Seq<char>)
    ensures
        users_with_login(users, name, email) == users.filter(|x: User| x.username@ == name && x.email@ == email),
        forall|i: int|
            0 <= i < users_with_login(users, name, email).len() ==> (#[trigger] users_with_login(users, name, email)[i]).username@ == name && (#[trigger] users_with_login(users, name, email)[i]).email@ == email && users.contains(
                users_with_login(users, name, email)[i],
            ),
        forall|i: int|
            0 <= i < users.len() && users[i].username@ == name && users[i].email@ == email ==> users_with_login(users, name, email).contains(
                #[trigger] users[i],
            ),
        users_with_login(users, name, email).len() > 0 <==> exists|k: int|
            0 <= k < users.len() && (#[trigger] users[k]).username@ == name && (#[trigger] users[k]).email@ == email,
    decreases users.len(),
{
    reveal(Seq::filter);
    let p = |x: User| x.username@ == name && x.email@ == email;
    if users.len() > 0 {
        let rest = users.drop_last();
        law_users_with_login_selects(rest, name, email);
        assert(users_with_login(users, name, email) =~= users.filter(p));
    }
    lemma_filter_selects(users, p);
}

/// The assignments of a course are exactly the table's assignments with that course id, in table order.
pub proof fn law_course_assignments_selects(assignments: Seq<Assignment>, course_id: i32)
    ensures
        course_assignments(assignments, course_id) == assignments.filter(|x: Assignment| x.course_id == course_id),
        forall|i: int|
            0 <= i < course_assignments(assignments, course_id).len() ==> (#[trigger] course_assignments(assignments, course_id)[i]).course_id == course_id && assignments.contains(
                course_assignments(assignments, course_id)[i],
            ),
        forall|i: int|
            0 <= i < assignments.len() && assignments[i].course_id == course_id ==> course_assignments(assignments, course_id).contains(
                #[trigger] assignments[i],
            ),
        course_assignments(assignments, course_id).len() > 0 <==> exists|k: int|
            0 <= k < assignments.len() && (#[trigger] assignments[k]).course_id == course_id,
    decreases assignments.len(),
{
    reveal(Seq::filter);
    let p = |x: Assignment| x.course_id == course_id;
    if assignments.len() > 0 {
        let rest = assignments.drop_last();
        law_course_assignments_selects(rest, course_id);
        assert(course_assignments(assignments, course_id) =~= assignments.filter(p));
    }
    lemma_filter_selects(assignments, p);
}

proof fn lemma_instructor_course_pairs_complete(e: CourseInstructor, courses: Seq<Course>, c: Course)
    requires
        courses.contains(c),
        c.course_id == e.course_id,
    ensures
        instructor_course_pairs(e, courses).contains((e, c)),
    decreases courses.len(),
{
    let rest = courses.drop_last();
    if courses.last() == c {
        let pairs = instructor_course_pairs(e, courses);
        assert(pairs[pairs.len() - 1] == (e, c));
    } else {
        let k = choose|k: int| 0 <= k < courses.len() && courses[k] == c;
        assert(rest[k] == c);
        lemma_instructor_course_pairs_complete(e, rest, c);
        let pairs = instructor_course_pairs(e, rest);
        let j = choose|j: int| 0 <= j < pairs.len() && pairs[j] == (e, c);
        assert(instructor_course_pairs(e, courses)[j] == (e, c));
    }
}

proof fn lemma_instructor_course_pairs_sound(e: CourseInstructor, courses: Seq<Course>)
    ensures
        forall|i: int|
            0 <= i < instructor_course_pairs(e, courses).len() ==> {
                &&& (#[trigger] instructor_course_pairs(e, courses)[i]).0 == e
                &&& courses.contains(instructor_course_pairs(e, courses)[i].1)
                &&& instructor_course_pairs(e, courses)[i].1.course_id == e.course_id
            },
    decreases courses.len(),
{
    if courses.len() > 0 {
        let rest = courses.drop_last();
        lemma_instructor_course_pairs_sound(e, rest);
        let pairs = instructor_course_pairs(e, courses);
        assert forall|i: int| 0 <= i < pairs.len() implies {
            &&& (#[trigger] pairs[i]).0 == e
            &&& courses.contains(pairs[i].1)
            &&& pairs[i].1.course_id == e.course_id
        } by {
            let before = instructor_course_pairs(e, rest);
            if i < before.len() {
                assert(pairs[i] == before[i]);
                let k = choose|k: int| 0 <= k < rest.len() && rest[k] == before[i].1;
                assert(courses[k] == rest[k]);
            } else {
                assert(courses[courses.len() - 1] == courses.last());
            }
        }
    }
}

/// The instructor's listed courses are exactly the joins of the instructor's
/// course-instructor rows with the courses whose id they name: every listed pair is
/// such a join, and every such join is listed.
pub proof fn law_taught_courses_join(cis: Seq<CourseInstructor>, courses: Seq<Course>, instructor: i32)
    ensures
        forall|i: int|
            0 <= i < taught_courses(cis, courses, instructor).len() ==> {
                let p = #[trigger] taught_courses(cis, courses, instructor)[i];
                &&& p.0.instructor_id == instructor
                &&& cis.contains(p.0)
                &&& courses.contains(p.1)
                &&& p.1.course_id == p.0.course_id
            },
        forall|e: CourseInstructor, c: Course|
            cis.contains(e) && courses.contains(c) && e.instructor_id == instructor
                && c.course_id == e.course_id ==> #[trigger] taught_courses(
                cis,
                courses,
                instructor,
            ).contains((e, c)),
    decreases cis.len(),
{
    if cis.len() > 0 {
        let rest = cis.drop_last();
        let last = cis.last();
        law_taught_courses_join(rest, courses, instructor);
        lemma_instructor_course_pairs_sound(last, courses);
        let all = taught_courses(cis, courses, instructor);
        let before = taught_courses(rest, courses, instructor);
        assert(all == before + if last.instructor_id == instructor {
            instructor_course_pairs(last, courses)
        } else {
            seq![]
        });
        assert forall|i: int| 0 <= i < all.len() implies {
            let p = #[trigger] all[i];
            &&& p.0.instructor_id == instructor
            &&& cis.contains(p.0)
            &&& courses.contains(p.1)
            &&& p.1.course_id == p.0.course_id
        } by {
            if i < before.len() {
                assert(all[i] == before[i]);
                let k = choose|k: int| 0 <= k < rest.len() && rest[k] == before[i].0;
                assert(cis[k] == rest[k]);
            } else {
                let tail = instructor_course_pairs(last, courses);
                assert(all[i] == tail[i - before.len()]);
                assert(cis[cis.len() - 1] == last);
            }
        }
        assert forall|e: CourseInstructor, c: Course|
            cis.contains(e) && courses.contains(c) && e.instructor_id == instructor
                && c.course_id == e.course_id implies #[trigger] taught_courses(
            cis,
            courses,
            instructor,
        ).contains((e, c)) by {
            if e == last {
                lemma_instructor_course_pairs_complete(e, courses, c);
                let tail = instructor_course_pairs(last, courses);
                let j = choose|j: int| 0 <= j < tail.len() && tail[j] == (e, c);
                assert(all[before.len() + j] == (e, c));
            } else {
                let k = choose|k: int| 0 <= k < cis.len() && cis[k] == e;
                assert(rest[k] == e);
                assert(rest.contains(e));
                assert(before.contains((e, c)));
                let j = choose|j: int| 0 <= j < before.len() && before[j] == (e, c);
                assert(all[j] == (e, c));
            }
        }
    }
}

/// The courses joined with an enrollment are exactly the courses whose id it
/// names, in table order, each paired with the enrollment.
pub proof fn law_enrollment_courses_exact(e: Enrollment, courses: Seq<Course>)
    ensures
        enrollment_courses(e, courses) == courses.filter(|c: Course| c.course_id == e.course_id).map_values(
            |c: Course| (e, c),
        ),
    decreases courses.len(),
{
    reveal(Seq::filter);
    let p = |c: Course| c.course_id == e.course_id;
    let g = |c: Course| (e, c);
    if courses.len() > 0 {
        let rest = courses.drop_last();
        law_enrollment_courses_exact(e, rest);
        if p(courses.last()) {
            assert(courses.filter(p) == rest.filter(p).push(courses.last()));
            assert(courses.filter(p).map_values(g) =~= rest.filter(p).map_values(g).push(
                g(courses.last()),
            ));
        } else {
            assert(courses.filter(p) == rest.filter(p));
        }
        assert(enrollment_courses(e, courses) =~= courses.filter(p).map_values(g));
    } else {
        assert(courses.filter(p).map_values(g) =~= Seq::<(Enrollment, Course)>::empty());
    }
}

proof fn lemma_enrolled_exact_alt(rows: Seq<Enrollment>, courses: Seq<Course>, student: i32)
    ensures
        enrolled_courses(rows, courses, student) == rows.filter(|e: Enrollment| e.student_id == student).map_values(
            |e: Enrollment| courses.filter(|c: Course| c.course_id == e.course_id).map_values(
                |c: Course| (e, c),
            ),
        ).flatten_alt(),
    decreases rows.len(),
{
    reveal(Seq::filter);
    let p = |e: Enrollment| e.student_id == student;
    let g = |e: Enrollment| courses.filter(|c: Course| c.course_id == e.course_id).map_values(
        |c: Course| (e, c),
    );
    if rows.len() > 0 {
        let rest = rows.drop_last();
        let last = rows.last();
        lemma_enrolled_exact_alt(rest, courses, student);
        if p(last) {
            law_enrollment_courses_exact(last, courses);
            assert(rows.filter(p) == rest.filter(p).push(last));
            let m = rows.filter(p).map_values(g);
            assert(m =~= rest.filter(p).map_values(g).push(g(last)));
            assert(m.drop_last() =~= rest.filter(p).map_values(g));
            assert(m.last() == g(last));
        } else {
            assert(rows.filter(p) == rest.filter(p));
        }
    } else {
        assert(rows.filter(p).map_values(g) =~= Seq::<Seq<(Enrollment, Course)>>::empty());
    }
}

/// A student's listed courses are, in order, for each of the student's
/// enrollments in table order, the courses whose id it names, in table order:
/// one pair per enrollment and matching course, no more and no fewer.
pub proof fn law_enrolled_courses_exact(rows: Seq<Enrollment>, courses: Seq<Course>, student: i32)
    ensures
        enrolled_courses(rows, courses, student) == rows.filter(|e: Enrollment| e.student_id == student).map_values(
            |e: Enrollment| courses.filter(|c: Course| c.course_id == e.course_id).map_values(
                |c: Course| (e, c),
            ),
        ).flatten(),
{
    lemma_enrolled_exact_alt(rows, courses, student);
    rows.filter(|e: Enrollment| e.student_id == student).map_values(
        |e: Enrollment| courses.filter(|c: Course| c.course_id == e.course_id).map_values(
            |c: Course| (e, c),
        ),
    ).lemma_flatten_and_flatten_alt_are_equivalent();
}

/// The courses joined with a course-instructor row are exactly the courses
/// whose id it names, in table order, each paired with the row.
pub proof fn law_instructor_course_pairs_exact(e: CourseInstructor, courses: Seq<Course>)
    ensures
        instructor_course_pairs(e, courses) == courses.filter(|c: Course| c.course_id == e.course_id).map_values(
            |c: Course| (e, c),
        ),
    decreases courses.len(),
{
    reveal(Seq::filter);
    let p = |c: Course| c.course_id == e.course_id;
    let g = |c: Course| (e, c);
    if courses.len() > 0 {
        let rest = courses.drop_last();
        law_instructor_course_pairs_exact(e, rest);
        if p(courses.last()) {
            assert(courses.filter(p) == rest.filter(p).push(courses.last()));
            assert(courses.filter(p).map_values(g) =~= rest.filter(p).map_values(g).push(
                g(courses.last()),
            ));
        } else {
            assert(courses.filter(p) == rest.filter(p));
        }
        assert(instructor_course_pairs(e, courses) =~= courses.filter(p).map_values(g));
    } else {
        assert(courses.filter(p).map_values(g) =~= Seq::<(CourseInstructor, Course)>::empty());
    }
}

proof fn lemma_taught_exact_alt(rows: Seq<CourseInstructor>, courses: Seq<Course>, instructor: i32)
    ensures
        taught_courses(rows, courses, instructor) == rows.filter(|e: CourseInstructor| e.instructor_id == instructor).map_values(
            |e: CourseInstructor| courses.filter(|c: Course| c.course_id == e.course_id).map_values(
                |c: Course| (e, c),
            ),
        ).flatten_alt(),
    decreases rows.len(),
{
    reveal(Seq::filter);
    let p = |e: CourseInstructor| e.instructor_id == instructor;
    let g = |e: CourseInstructor| courses.filter(|c: Course| c.course_id == e.course_id).map_values(
        |c: Course| (e, c),
    );
    if rows.len() > 0 {
        let rest = rows.drop_last();
        let last = rows.last();
        lemma_taught_exact_alt(rest, courses, instructor);
        if p(last) {
            law_instructor_course_pairs_exact(last, courses);
            assert(rows.filter(p) == rest.filter(p).push(last));
            let m = rows.filter(p).map_values(g);
            assert(m =~= rest.filter(p).map_values(g).push(g(last)));
            assert(m.drop_last() =~= rest.filter(p).map_values(g));
            assert(m.last() == g(last));
        } else {
            assert(rows.filter(p) == rest.filter(p));
        }
    } else {
        assert(rows.filter(p).map_values(g) =~= Seq::<Seq<(CourseInstructor, Course)>>::empty());
    }
}

/// An instructor's listed courses are, in order, for each of the instructor's
/// course-instructor rows in table order, the courses whose id it names, in
/// table order: one pair per row and matching course, no more and no fewer.
pub proof fn law_taught_courses_exact(rows: Seq<CourseInstructor>, courses: Seq<Course>, instructor: i32)
    ensures
        taught_courses(rows, courses, instructor) == rows.filter(|e: CourseInstructor| e.instructor_id == instructor).map_values(
            |e: CourseInstructor| courses.filter(|c: Course| c.course_id == e.course_id).map_values(
                |c: Course| (e, c),
            ),
        ).flatten(),
{
    lemma_taught_exact_alt(rows, courses, instructor);
    rows.filter(|e: CourseInstructor| e.instructor_id == instructor).map_values(
        |e: CourseInstructor| courses.filter(|c: Course| c.course_id == e.course_id).map_values(
            |c: Course| (e, c),
        ),
    ).lemma_flatten_and_flatten_alt_are_equivalent();
}

} // verus!
