use rsri_projects::voltron::models::{
    Class, ClassDto, EnrollUserDto, Enrollment, EnrollmentDto, EnrollmentRequestDto, Group, GroupDto,
    PasswordReset, PasswordResetDto, User, UserDto, UserSession,
};
use rsri_projects::voltron::queries::{get_roster, get_user, is_existing_user};
use rsri_projects::voltron::services::{
    add_class, add_enrollment, add_group, add_roster, add_user, change_language, create_reset,
    reset_password, sign_in, sign_out, PasswordResetForm, ResetForm, UserLogin,
};
use rsri_projects::voltron::store::{VoltronStore, VoltronWrite};

fn s(x: &str) -> String {
    x.to_string()
}

fn user(id: &str, email: &str, password: &str) -> User {
    User {
        user_id: s(id),
        email_address: s(email),
        first_name: s("F"),
        last_name: s("L"),
        theme: s("dark"),
        key_binds: s("vim"),
        admin: s("false"),
        password: s(password),
    }
}

fn member(id: &str, group: i32) -> EnrollUserDto {
    EnrollUserDto {
        user_id: s(id),
        email_address: format!("{}@x", id),
        first_name: s("First"),
        last_name: s("Last"),
        password: s("pw"),
        group_id: group,
    }
}

fn class(id: i32) -> Class {
    Class {
        class_id: id,
        institution: s("uni"),
        name: s("cs"),
        instructor: s("prof"),
        editor_language: s("rust"),
        user_id: s("u1"),
    }
}

fn store() -> VoltronStore {
    VoltronStore {
        users: vec![user("u1", "a@x", "pa"), user("u2", "b@x", "pb")],
        classes: vec![class(1), class(2), class(9)],
        groups: (1..9)
            .map(|g| Group { group_id: g, name: format!("g{}", g), editor_link: s("link"), class_id: 1 })
            .collect(),
        enrollments: vec![
            Enrollment { enrollment_id: 1, user_id: s("u2"), class_id: 1, group_id: 5 },
            Enrollment { enrollment_id: 2, user_id: s("u1"), class_id: 2, group_id: 6 },
            Enrollment { enrollment_id: 3, user_id: s("u1"), class_id: 1, group_id: 5 },
        ],
        password_resets: vec![],
        next_class_id: 10,
        next_group_id: 9,
        next_enrollment_id: 4,
        next_password_reset_id: 1,
    }
}

#[test]
fn voltron_session_refuses_empty_token() {
    assert_eq!(UserSession::from_token(s("")), None);
    assert_eq!(UserSession::from_token(s("u1")), Some(UserSession { user_token: s("u1") }));
}

#[test]
fn sign_in_then_get_user() {
    let st = store();
    let r = sign_in(&st, UserLogin { email_address: s("b@x"), user_password: s("pb") });
    assert_eq!(r.user, user("u2", "b@x", "pb"));
    assert_eq!(r.cookie, s("u2"));
    assert_eq!(get_user(&st, UserSession { user_token: r.cookie }), r.user);
}

#[test]
fn sign_out_answers() {
    assert_eq!(sign_out(), s("User logged out"));
}

#[test]
fn reset_for_unknown_email_is_refused() {
    let st = store();
    let r = create_reset(&st, ResetForm { email: s("nobody@x") });
    assert!(r.writes.is_empty());
    assert_eq!(r.message, s("User with given email address is not found"));
}

#[test]
fn reset_with_unknown_code_is_refused() {
    let st = store();
    let r = reset_password(&st, PasswordResetForm {
        email: s("a@x"),
        new_password: s("new"),
        code: s("ABCDE"),
    });
    assert!(r.writes.is_empty());
    assert_eq!(r.message, s("code is invalid"));
}

#[test]
fn reset_then_new_password() {
    let mut st = store();
    let r = create_reset(&st, ResetForm { email: s("a@x") });
    assert_eq!(r.message, s("Check given email"));
    assert_eq!(r.writes, vec![VoltronWrite::InsertPasswordReset(PasswordResetDto {
        email: s("a@x"),
        code: s("ABCDE"),
        valid: true,
        unique_request: s("HI"),
    })]);
    st.apply_all(&r.writes);
    assert_eq!(st.password_resets, vec![PasswordReset {
        password_reset_id: 1,
        email: s("a@x"),
        code: s("ABCDE"),
        valid: true,
        unique_request: s("HI"),
    }]);
    let r = reset_password(&st, PasswordResetForm {
        email: s("a@x"),
        new_password: s("fresh"),
        code: s("ABCDE"),
    });
    assert_eq!(r.message, s("Succesfully reset password"));
    st.apply_all(&r.writes);
    assert_eq!(st.users[0].password, s("fresh"));
    assert_eq!(st.users[1].password, s("pb"));
    assert!(!st.password_resets[0].valid);
    let again = sign_in(&st, UserLogin { email_address: s("a@x"), user_password: s("fresh") });
    assert_eq!(again.cookie, s("u1"));
}

#[test]
fn enroll_new_user_adds_user_with_defaults() {
    let st = store();
    let r = add_enrollment(&st, EnrollmentRequestDto { class_id: 1, users: vec![member("u9", 7), member("u8", 8)] });
    assert_eq!(r.message, s("Successfully enrolled student"));
    assert_eq!(r.cookie, Some(s("u9")));
    assert_eq!(r.writes, vec![
        VoltronWrite::InsertUser(UserDto {
            user_id: s("u9"),
            email_address: s("u9@x"),
            first_name: s("First"),
            last_name: s("Last"),
            theme: s("default"),
            key_binds: s("k"),
            admin: s("false"),
            password: s("pw"),
        }),
        VoltronWrite::InsertEnrollment(EnrollmentDto { user_id: s("u9"), class_id: 1, group_id: 7 }),
    ]);
}

#[test]
fn enroll_existing_user_only_enrolls() {
    let st = store();
    let r = add_enrollment(&st, EnrollmentRequestDto { class_id: 2, users: vec![member("u2", 3)] });
    assert_eq!(r.cookie, None);
    assert_eq!(r.writes, vec![VoltronWrite::InsertEnrollment(EnrollmentDto {
        user_id: s("u2"),
        class_id: 2,
        group_id: 3,
    })]);
}

#[test]
fn roster_adds_each_user_once_and_enrolls_all() {
    let mut st = store();
    let roster = vec![member("u7", 1), member("u1", 2), member("u7", 3), member("u8", 4)];
    let r = add_roster(
        &st,
        UserSession { user_token: s("u1") },
        EnrollmentRequestDto { class_id: 9, users: roster.clone() },
    );
    assert_eq!(r.message, s("Successfully added roster"));
    assert_eq!(r.cookie, Some(s("u8")));
    let inserted: Vec<&VoltronWrite> =
        r.writes.iter().filter(|w| matches!(w, VoltronWrite::InsertUser(_))).collect();
    assert_eq!(inserted.len(), 2);
    assert_eq!(r.writes.len(), 6);
    st.apply_all(&r.writes);
    for m in &roster {
        assert!(is_existing_user(&st, m.user_id.clone()));
        assert!(st.enrollments.iter().any(|e| e.user_id == m.user_id && e.class_id == 9 && e.group_id == m.group_id));
    }
    assert_eq!(st.users.len(), 4);
    let names: Vec<String> = get_roster(&st, 9, UserSession { user_token: s("u1") })
        .into_iter()
        .map(|u| u.user_id)
        .collect();
    assert_eq!(names, vec![s("u7"), s("u1"), s("u7"), s("u8")]);
}

#[test]
fn empty_roster_does_nothing() {
    let st = store();
    let r = add_roster(&st, UserSession { user_token: s("u1") }, EnrollmentRequestDto { class_id: 1, users: vec![] });
    assert!(r.writes.is_empty());
    assert_eq!(r.cookie, None);
}

#[test]
fn roster_lists_users_of_class_in_enrollment_order() {
    let st = store();
    let roster = get_roster(&st, 1, UserSession { user_token: s("u1") });
    assert_eq!(roster, vec![user("u2", "b@x", "pb"), user("u1", "a@x", "pa")]);
    assert!(get_roster(&st, 42, UserSession { user_token: s("u1") }).is_empty());
}

#[test]
fn add_user_then_exists() {
    let mut st = store();
    let d = UserDto {
        user_id: s("new"),
        email_address: s("n@x"),
        first_name: s("N"),
        last_name: s("M"),
        theme: s("light"),
        key_binds: s("emacs"),
        admin: s("true"),
        password: s("pw"),
    };
    assert!(!is_existing_user(&st, s("new")));
    let r = add_user(d.clone());
    assert_eq!(r.cookie, s("new"));
    assert_eq!(r.user, d);
    st.apply_all(&r.writes);
    assert!(is_existing_user(&st, s("new")));
    assert_eq!(st.users[2].theme, s("light"));
}

#[test]
fn add_class_and_group() {
    let mut st = store();
    let c = add_class(ClassDto {
        institution: s("uni"),
        name: s("math"),
        instructor: s("p"),
        editor_language: s("python"),
        user_id: s("u1"),
    });
    assert_eq!(c.message, s("Successfully added class"));
    let g = add_group(GroupDto { name: s("g"), editor_link: s("link"), class_id: 10 });
    assert_eq!(g.message, s("Successfully added group"));
    st.apply_all(&c.writes);
    st.apply_all(&g.writes);
    assert_eq!(st.classes[3].class_id, 10);
    assert_eq!(st.classes[3].editor_language, s("python"));
    assert_eq!(st.groups[8].group_id, 9);
    assert_eq!(st.groups[8].class_id, 10);
    assert_eq!(st.next_class_id, 11);
}

#[test]
fn change_language_of_class() {
    let mut st = store();
    let mut class = st.classes[0].clone();
    class.editor_language = s("haskell");
    class.name = s("ignored");
    let r = change_language(class);
    assert_eq!(r.message, s("Language updated successfully"));
    st.apply_all(&r.writes);
    assert_eq!(st.classes[0].editor_language, s("haskell"));
    assert_eq!(st.classes[0].name, s("cs"));
}

#[test]
fn voltron_store_from_tables_continues_after_largest_ids() {
    let base = store();
    let st = VoltronStore::from_tables(
        base.users.clone(),
        base.classes.clone(),
        base.groups.clone(),
        base.enrollments.clone(),
        vec![PasswordReset {
            password_reset_id: i32::MAX,
            email: s("a@x"),
            code: s("c"),
            valid: true,
            unique_request: s("HI"),
        }],
    );
    assert_eq!(st.next_class_id, 10);
    assert_eq!(st.next_group_id, 9);
    assert_eq!(st.next_enrollment_id, 4);
    assert_eq!(st.next_password_reset_id, i32::MAX);
}

#[test]
fn user_keys_stay_unique_after_roster() {
    let mut st = store();
    let r = add_roster(
        &st,
        UserSession { user_token: s("u1") },
        EnrollmentRequestDto { class_id: 1, users: vec![member("u2", 1), member("x", 1), member("x", 2)] },
    );
    st.apply_all(&r.writes);
    let mut ids: Vec<String> = st.users.iter().map(|u| u.user_id.clone()).collect();
    ids.sort();
    ids.dedup();
    assert_eq!(ids.len(), st.users.len());
    assert_eq!(st.users.len(), 3);
}
