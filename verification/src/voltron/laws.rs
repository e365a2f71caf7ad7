use vstd::prelude::*;

use crate::selection::lemma_filter_selects;
use crate::voltron::models::PasswordReset;

use crate::voltron::models::{Class, Enrollment, EnrollUserDto, PasswordResetDto, User, UserDto};
use crate::voltron::queries::{
    class_enrollments, first_user, has_user, roster_complete, roster_of, resets_with_code, users_with_credentials, users_with_email,
};
use crate::voltron::services::{
    enroll_writes, is_new_member, last_new_member, password_reset_writes, reset_code, reset_record, PasswordResetForm,
};
use crate::voltron::store::{
    apply_write, apply_writes, lemma_apply_single, lemma_users_with_id_exists,
    lemma_users_with_id_unique, users_with_id, VoltronTables, VoltronWrite,
    writes_allowed,
};

verus! {

/// Each user found by email address and password is a user of the table
/// with that email address and password.
proof fn lemma_credentials_members(users: Seq<User>, email: Seq<char>, password: Seq<char>)
    ensures
        forall|i: int|
            0 <= i < users_with_credentials(users, email, password).len() ==> {
                &&& users.contains(#[trigger] users_with_credentials(users, email, password)[i])
                &&& users_with_credentials(users, email, password)[i].email_address@ == email
                &&& users_with_credentials(users, email, password)[i].password@ == password
            },
    decreases users.len(),
{
    if users.len() > 0 {
        let rest = users.drop_last();
        lemma_credentials_members(rest, email, password);
        let m = users_with_credentials(users, email, password);
        let before = users_with_credentials(rest, email, password);
        assert forall|i: int| 0 <= i < m.len() implies {
            &&& users.contains(#[trigger] m[i])
            &&& m[i].email_address@ == email
            &&& m[i].password@ == password
        } by {
            if i < before.len() {
                assert(m[i] == before[i]);
                let k = choose|k: int| 0 <= k < rest.len() && rest[k] == before[i];
                assert(users[k] == rest[k]);
            } else {
                assert(users[users.len() - 1] == users.last());
            }
        }
    }
}

proof fn lemma_users_with_email_member(users: Seq<User>, email: Seq<char>)
    requires
        users_with_email(users, email).len() > 0,
    ensures
        exists|k: int| 0 <= k < users.len() && (#[trigger] users[k]).email_address@ == email,
    decreases users.len(),
{
    let rest = users.drop_last();
    if users_with_email(rest, email).len() > 0 {
        lemma_users_with_email_member(rest, email);
        let k = choose|k: int| 0 <= k < rest.len() && (#[trigger] rest[k]).email_address@ == email;
        assert(users[k] == rest[k]);
    } else {
        assert(users[users.len() - 1] == users.last());
    }
}

proof fn lemma_credentials_found(users: Seq<User>, email: Seq<char>, password: Seq<char>, k: int)
    requires
        0 <= k < users.len(),
        users[k].email_address@ == email,
        users[k].password@ == password,
    ensures
        users_with_credentials(users, email, password).len() > 0,
    decreases users.len(),
{
    if k < users.len() - 1 {
        let rest = users.drop_last();
        assert(rest[k] == users[k]);
        lemma_credentials_found(rest, email, password, k);
    }
}

/// Inserting a user whose key is not taken keeps keys unique, and no other
/// write changes a key.
pub proof fn law_writes_keep_user_ids_unique(t: VoltronTables, w: VoltronWrite)
    requires
        t.wf(),
        t.can_apply(w),
    ensures
        apply_write(t, w).wf(),
{
    let after = apply_write(t, w);
    match w {
        VoltronWrite::InsertUser(d) => {
            lemma_users_with_id_exists(t.users, d.user_id@);
            assert forall|i: int, j: int|
                0 <= i < after.users.len() && 0 <= j < after.users.len() && i != j implies #[trigger] after.users[i].user_id@
                != #[trigger] after.users[j].user_id@ by {
                if i < t.users.len() && j < t.users.len() {
                    assert(after.users[i] == t.users[i] && after.users[j] == t.users[j]);
                } else if i < t.users.len() {
                    assert(after.users[i] == t.users[i]);
                } else {
                    assert(after.users[j] == t.users[j]);
                }
            }
        },
        VoltronWrite::SetPassword { email, password } => {
            assert forall|i: int, j: int|
                0 <= i < after.users.len() && 0 <= j < after.users.len() && i != j implies #[trigger] after.users[i].user_id@
                != #[trigger] after.users[j].user_id@ by {
                assert(after.users[i].user_id == t.users[i].user_id);
                assert(after.users[j].user_id == t.users[j].user_id);
            }
        },
        _ => {},
    }
}

/// With unique keys, the user that signs in is the user that the session
/// cookie then names.
pub proof fn law_sign_in_then_get_user(t: VoltronTables, email: Seq<char>, password: Seq<char>)
    requires
        t.wf(),
        users_with_credentials(t.users, email, password).len() > 0,
    ensures
        ({
            let u = users_with_credentials(t.users, email, password)[0];
            has_user(t, u.user_id@) && first_user(t, u.user_id@) == u
        }),
{
    lemma_credentials_members(t.users, email, password);
    let u = users_with_credentials(t.users, email, password)[0];
    assert(t.users.contains(u));
    let k = choose|k: int| 0 <= k < t.users.len() && t.users[k] == u;
    lemma_users_with_id_unique(t.users, k);
}

/// A user added by key then exists.
pub proof fn law_add_user_then_exists(t: VoltronTables, user: UserDto)
    ensures
        has_user(apply_writes(t, seq![VoltronWrite::InsertUser(user)]), user.user_id@),
{
    lemma_apply_single(t, VoltronWrite::InsertUser(user));
    let after = apply_write(t, VoltronWrite::InsertUser(user));
    assert(after.users[after.users.len() - 1].user_id == user.user_id);
    lemma_users_with_id_exists(after.users, user.user_id@);
}

/// After a language change, the classes with that id have the new language
/// and every other class is unchanged.
pub proof fn law_change_language(t: VoltronTables, class: Class)
    ensures
        ({
            let w = VoltronWrite::SetEditorLanguage {
                class_id: class.class_id,
                editor_language: class.editor_language,
            };
            let after = apply_writes(t, seq![w]);
            &&& after.classes.len() == t.classes.len()
            &&& forall|i: int|
                0 <= i < t.classes.len() ==> if (#[trigger] t.classes[i]).class_id
                    == class.class_id {
                    after.classes[i] == Class { editor_language: class.editor_language, ..t.classes[i] }
                } else {
                    after.classes[i] == t.classes[i]
                }
        }),
{
    let w = VoltronWrite::SetEditorLanguage {
        class_id: class.class_id,
        editor_language: class.editor_language,
    };
    lemma_apply_single(t, w);
}

/// Asking for a reset for a known email address and then setting a new
/// password with the reset's code succeeds: the code is found, every user
/// with that email address has the new password (so signing in with it
/// succeeds), and every reset with the code is invalid.
pub proof fn law_reset_then_new_password(
    t: VoltronTables,
    d: PasswordResetDto,
    form: PasswordResetForm,
)
    requires
        users_with_email(t.users, form.email@).len() > 0,
        reset_record(d, form.email),
        t.can_apply(VoltronWrite::InsertPasswordReset(d)),
        form.code@ == reset_code(),
    ensures
        ({
            let mid = apply_writes(t, seq![VoltronWrite::InsertPasswordReset(d)]);
            let after = apply_writes(mid, password_reset_writes(form));
            &&& resets_with_code(mid.password_resets, form.code@).len() > 0
            &&& writes_allowed(mid, password_reset_writes(form))
            &&& forall|i: int|
                0 <= i < after.users.len() && (#[trigger] after.users[i]).email_address@
                    == form.email@ ==> after.users[i].password == form.new_password
            &&& users_with_credentials(after.users, form.email@, form.new_password@).len() > 0
            &&& forall|i: int|
                0 <= i < after.password_resets.len() && (
                #[trigger] after.password_resets[i]).code@ == form.code@
                    ==> !after.password_resets[i].valid
        }),
{
    lemma_apply_single(t, VoltronWrite::InsertPasswordReset(d));
    let mid = apply_write(t, VoltronWrite::InsertPasswordReset(d));
    assert(mid.password_resets.drop_last() =~= t.password_resets);
    let ws = password_reset_writes(form);
    let w0 = ws[0];
    let w1 = ws[1];
    assert(ws.drop_last() =~= seq![w0]);
    lemma_apply_single(mid, w0);
    let mid2 = apply_write(mid, w0);
    assert(apply_writes(mid, ws) == apply_write(mid2, w1));
    assert(writes_allowed(mid, ws));
    lemma_users_with_email_member(t.users, form.email@);
    let k = choose|k: int| 0 <= k < t.users.len() && (#[trigger] t.users[k]).email_address@ == form.email@;
    let after = apply_write(mid2, w1);
    assert(after.users[k].email_address@ == form.email@);
    assert(after.users[k].password == form.new_password);
    lemma_credentials_found(after.users, form.email@, form.new_password@, k);
}

/// Each user found by key carries that key.
proof fn lemma_users_with_id_keys(users: Seq<User>, id: Seq<char>)
    ensures
        forall|i: int|
            0 <= i < users_with_id(users, id).len() ==> (#[trigger] users_with_id(users, id)[i]).user_id@
                == id,
    decreases users.len(),
{
    if users.len() > 0 {
        let rest = users.drop_last();
        lemma_users_with_id_keys(rest, id);
        let m = users_with_id(users, id);
        let before = users_with_id(rest, id);
        assert forall|i: int| 0 <= i < m.len() implies (#[trigger] m[i]).user_id@ == id by {
            if i < before.len() {
                assert(m[i] == before[i]);
            }
        }
    }
}

/// A class's roster lists, for each enrollment into the class and in the
/// same order, a user with the enrolled key.
pub proof fn law_roster_matches_enrollments(t: VoltronTables, class_id: i32)
    requires
        roster_complete(t, class_id),
    ensures
        roster_of(t, class_id).len() == class_enrollments(t.enrollments, class_id).len(),
        forall|i: int|
            0 <= i < roster_of(t, class_id).len() ==> (#[trigger] roster_of(t, class_id)[i]).user_id@
                == class_enrollments(t.enrollments, class_id)[i].user_id@,
{
    let es = class_enrollments(t.enrollments, class_id);
    assert forall|i: int| 0 <= i < roster_of(t, class_id).len() implies (#[trigger] roster_of(
        t,
        class_id,
    )[i]).user_id@ == es[i].user_id@ by {
        assert(has_user(t, es[i].user_id@));
        lemma_users_with_id_keys(t.users, es[i].user_id@);
    }
}

/// `e` enrolls `u` into class `class_id`, in `u`'s group.
pub open spec fn enrolled_as(e: Enrollment, u: EnrollUserDto, class_id: i32) -> bool {
    &&& e.user_id == u.user_id
    &&& e.class_id == class_id
    &&& e.group_id == u.group_id
}

/// `x` is the row of the listed member `u`: `u`'s key, email address,
/// names and password, theme `default`, key binds `k`, and no admin rights.
pub open spec fn member_row(x: User, u: EnrollUserDto) -> bool {
    &&& x.user_id == u.user_id
    &&& x.email_address == u.email_address
    &&& x.first_name == u.first_name
    &&& x.last_name == u.last_name
    &&& x.password == u.password
    &&& x.theme@ == "default"@
    &&& x.key_binds@ == "k"@
    &&& x.admin@ == "false"@
}

/// What applying an enrollment's writes amounts to.
pub open spec fn roster_applied(
    t: VoltronTables,
    class_id: i32,
    us: Seq<EnrollUserDto>,
    ws: Seq<VoltronWrite>,
) -> bool {
    let a = apply_writes(t, ws);
    &&& writes_allowed(t, ws)
    &&& t.users.len() <= a.users.len()
    &&& forall|k: int| 0 <= k < t.users.len() ==> #[trigger] a.users[k] == t.users[k]
    &&& forall|k: int|
        t.users.len() <= k < a.users.len() ==> exists|j: int|
            0 <= j < us.len() && (#[trigger] a.users[k]).user_id == us[j].user_id
    &&& forall|j: int|
        0 <= j < us.len() ==> exists|k: int|
            0 <= k < a.users.len() && a.users[k].user_id@ == (#[trigger] us[j]).user_id@
    &&& a.enrollments.len() == t.enrollments.len() + us.len()
    &&& forall|k: int| 0 <= k < t.enrollments.len() ==> #[trigger] a.enrollments[k] == t.enrollments[k]
    &&& forall|j: int|
        0 <= j < us.len() ==> enrolled_as(
            a.enrollments[t.enrollments.len() + j],
            #[trigger] us[j],
            class_id,
        )
    &&& forall|j: int|
        0 <= j < us.len() ==> exists|k: int|
            0 <= k < a.enrollments.len() && enrolled_as(a.enrollments[k], #[trigger] us[j], class_id)
    &&& forall|j: int|
        0 <= j < us.len() && is_new_member(t.users, us, j) ==> exists|k: int|
            t.users.len() <= k < a.users.len() && member_row(a.users[k], #[trigger] us[j])
    &&& a.next_enrollment_id == t.next_enrollment_id + us.len()
    &&& a.classes == t.classes
    &&& a.groups == t.groups
}

#[verifier::rlimit(60)]
proof fn lemma_roster_applied(t: VoltronTables, class_id: i32, us: Seq<EnrollUserDto>, ws: Seq<VoltronWrite>)
    requires
        enroll_writes(t.users, class_id, us, ws),
        t.next_enrollment_id + us.len() <= i32::MAX,
        t.has_class(class_id),
        forall|j: int| 0 <= j < us.len() ==> t.has_group((#[trigger] us[j]).group_id),
    ensures
        roster_applied(t, class_id, us, ws),
    decreases us.len(),
{
    if us.len() == 0 {
        assert(ws =~= Seq::<VoltronWrite>::empty());
        return;
    }
    let last = us.len() - 1;
    let u = us[last];
    let rest = us.drop_last();
    assert(u == us.last());
    assert forall|j: int| 0 <= j < rest.len() implies #[trigger] rest[j] == us[j] by {}
    let we = ws.last();
    if is_new_member(t.users, us, last) {
        let ws2 = ws.subrange(0, ws.len() - 2);
        let wu = ws[ws.len() - 2];
        assert(ws.drop_last().drop_last() =~= ws2);
        assert(ws.drop_last().last() == wu);
        lemma_roster_applied(t, class_id, rest, ws2);
        let mid = apply_writes(t, ws2);
        let d = wu->InsertUser_0;
        let e = we->InsertEnrollment_0;
        // the new user's key is free
        assert forall|k: int| 0 <= k < mid.users.len() implies (#[trigger] mid.users[k]).user_id@
            != d.user_id@ by {
            if k < t.users.len() {
                lemma_users_with_id_exists(t.users, u.user_id@);
                assert(mid.users[k] == t.users[k]);
            } else {
                let j = choose|j: int|
                    0 <= j < rest.len() && (#[trigger] mid.users[k]).user_id == rest[j].user_id;
                assert(rest[j] == us[j]);
                assert(us[j].user_id@ != us[last].user_id@);
            }
        }
        lemma_users_with_id_exists(mid.users, d.user_id@);
        assert(mid.can_apply(wu));
        let m2 = apply_write(mid, wu);
        assert(apply_writes(t, ws.drop_last()) == m2);
        assert(writes_allowed(t, ws.drop_last()));
        let a = apply_write(m2, we);
        assert(apply_writes(t, ws) == a);
        assert(a.users == mid.users.push(a.users[a.users.len() - 1]));
        assert(a.enrollments == mid.enrollments.push(a.enrollments[a.enrollments.len() - 1]));
        assert(enrolled_as(a.enrollments[a.enrollments.len() - 1], u, class_id));
        assert forall|k: int| 0 <= k < t.users.len() implies #[trigger] a.users[k] == t.users[k] by {
            assert(a.users[k] == mid.users[k]);
        }
        assert forall|k: int| 0 <= k < t.enrollments.len() implies #[trigger] a.enrollments[k]
            == t.enrollments[k] by {
            assert(a.enrollments[k] == mid.enrollments[k]);
        }
        assert(apply_writes(t, ws) == a);
        assert forall|k: int|
            t.users.len() <= k < a.users.len() implies exists|j: int|
                0 <= j < us.len() && (#[trigger] a.users[k]).user_id == us[j].user_id by {
            if k < mid.users.len() {
                let j = choose|j: int|
                    0 <= j < rest.len() && (#[trigger] mid.users[k]).user_id == rest[j].user_id;
                assert(rest[j] == us[j]);
            } else {
                assert(a.users[k].user_id == us[last].user_id);
            }
        }
        assert forall|j: int| 0 <= j < us.len() implies exists|k: int|
            0 <= k < a.users.len() && a.users[k].user_id@ == (#[trigger] us[j]).user_id@ by {
            if j < last {
                assert(rest[j] == us[j]);
                let k = choose|k: int|
                    0 <= k < mid.users.len() && mid.users[k].user_id@ == (#[trigger] rest[j]).user_id@;
                assert(a.users[k] == mid.users[k]);
            } else {
                assert(a.users[a.users.len() - 1].user_id@ == us[j].user_id@);
            }
        }
        // the enrollment's user, class and group exist
        assert(a.users == m2.users);
        let ku = choose|k: int|
            0 <= k < a.users.len() && a.users[k].user_id@ == (#[trigger] us[last]).user_id@;
        assert(m2.users[ku].user_id@ == e.user_id@);
        let kc = choose|k: int|
            0 <= k < t.classes.len() && (#[trigger] t.classes[k]).class_id == class_id;
        assert(m2.classes[kc].class_id == e.class_id);
        assert(t.has_group(us[last].group_id));
        let kg = choose|k: int|
            0 <= k < t.groups.len() && (#[trigger] t.groups[k]).group_id == u.group_id;
        assert(m2.groups[kg].group_id == e.group_id);
        assert(m2.can_apply(we));
        assert(writes_allowed(t, ws));
        assert forall|j: int|
            0 <= j < us.len() && is_new_member(t.users, us, j) implies exists|k: int|
                t.users.len() <= k < a.users.len() && member_row(a.users[k], #[trigger] us[j]) by {
            if j < last {
                assert(rest[j] == us[j]);
                lemma_new_member_prefix(t.users, us, j);
                let k = choose|k: int|
                    t.users.len() <= k < mid.users.len() && member_row(mid.users[k], #[trigger] rest[j]);
                assert(a.users[k] == mid.users[k]);
            } else {
                assert(member_row(a.users[a.users.len() - 1], us[j]));
            }
        }
        assert forall|j: int| 0 <= j < us.len() implies enrolled_as(
            a.enrollments[t.enrollments.len() + j],
            #[trigger] us[j],
            class_id,
        ) by {
            if j < last {
                assert(rest[j] == us[j]);
                assert(enrolled_as(mid.enrollments[t.enrollments.len() + j], rest[j], class_id));
                assert(a.enrollments[t.enrollments.len() + j] == mid.enrollments[t.enrollments.len()
                    + j]);
            } else {
                assert(a.enrollments[t.enrollments.len() + j] == a.enrollments[a.enrollments.len()
                    - 1]);
            }
        }
        assert forall|j: int| 0 <= j < us.len() implies exists|k: int|
            0 <= k < a.enrollments.len() && enrolled_as(a.enrollments[k], #[trigger] us[j], class_id) by {
            if j < last {
                assert(rest[j] == us[j]);
                let k = choose|k: int|
                    0 <= k < mid.enrollments.len() && enrolled_as(
                        mid.enrollments[k],
                        #[trigger] rest[j],
                        class_id,
                    );
                assert(a.enrollments[k] == mid.enrollments[k]);
            } else {
                assert(enrolled_as(a.enrollments[a.enrollments.len() - 1], us[j], class_id));
            }
        }
    } else {
        let ws1 = ws.drop_last();
        lemma_roster_applied(t, class_id, rest, ws1);
        let mid = apply_writes(t, ws1);
        let e = we->InsertEnrollment_0;
        let a = apply_write(mid, we);
        assert(a.users == mid.users);
        assert(a.enrollments == mid.enrollments.push(a.enrollments[a.enrollments.len() - 1]));
        assert(enrolled_as(a.enrollments[a.enrollments.len() - 1], u, class_id));
        assert forall|k: int| 0 <= k < t.users.len() implies #[trigger] a.users[k] == t.users[k] by {
            assert(a.users[k] == mid.users[k]);
        }
        assert forall|k: int| 0 <= k < t.enrollments.len() implies #[trigger] a.enrollments[k]
            == t.enrollments[k] by {
            assert(a.enrollments[k] == mid.enrollments[k]);
        }
        assert(apply_writes(t, ws) == a);
        assert forall|k: int|
            t.users.len() <= k < a.users.len() implies exists|j: int|
                0 <= j < us.len() && (#[trigger] a.users[k]).user_id == us[j].user_id by {
            let j = choose|j: int|
                0 <= j < rest.len() && (#[trigger] mid.users[k]).user_id == rest[j].user_id;
            assert(rest[j] == us[j]);
        }
        assert forall|j: int| 0 <= j < us.len() implies exists|k: int|
            0 <= k < a.users.len() && a.users[k].user_id@ == (#[trigger] us[j]).user_id@ by {
            if j < last {
                assert(rest[j] == us[j]);
                let k = choose|k: int|
                    0 <= k < mid.users.len() && mid.users[k].user_id@ == (#[trigger] rest[j]).user_id@;
            } else if users_with_id(t.users, u.user_id@).len() > 0 {
                lemma_users_with_id_exists(t.users, u.user_id@);
                let k = choose|k: int| 0 <= k < t.users.len() && (#[trigger] t.users[k]).user_id@ == u.user_id@;
                assert(a.users[k] == t.users[k]);
            } else {
                let i = choose|i: int| 0 <= i < last && (#[trigger] us[i]).user_id@ == us[last].user_id@;
                assert(rest[i] == us[i]);
                let k = choose|k: int|
                    0 <= k < mid.users.len() && mid.users[k].user_id@ == (#[trigger] rest[i]).user_id@;
                assert(a.users[k].user_id@ == us[j].user_id@);
            }
        }
        // the enrollment's user, class and group exist
        assert(a.users == mid.users);
        let ku = choose|k: int|
            0 <= k < a.users.len() && a.users[k].user_id@ == (#[trigger] us[last]).user_id@;
        assert(mid.users[ku].user_id@ == e.user_id@);
        let kc = choose|k: int|
            0 <= k < t.classes.len() && (#[trigger] t.classes[k]).class_id == class_id;
        assert(mid.classes[kc].class_id == e.class_id);
        assert(t.has_group(us[last].group_id));
        let kg = choose|k: int|
            0 <= k < t.groups.len() && (#[trigger] t.groups[k]).group_id == u.group_id;
        assert(mid.groups[kg].group_id == e.group_id);
        assert(mid.can_apply(we));
        assert(writes_allowed(t, ws));
        assert forall|j: int|
            0 <= j < us.len() && is_new_member(t.users, us, j) implies exists|k: int|
                t.users.len() <= k < a.users.len() && member_row(a.users[k], #[trigger] us[j]) by {
            if j < last {
                assert(rest[j] == us[j]);
                lemma_new_member_prefix(t.users, us, j);
                let k = choose|k: int|
                    t.users.len() <= k < mid.users.len() && member_row(mid.users[k], #[trigger] rest[j]);
                assert(a.users[k] == mid.users[k]);
            }
        }
        assert forall|j: int| 0 <= j < us.len() implies enrolled_as(
            a.enrollments[t.enrollments.len() + j],
            #[trigger] us[j],
            class_id,
        ) by {
            if j < last {
                assert(rest[j] == us[j]);
                assert(enrolled_as(mid.enrollments[t.enrollments.len() + j], rest[j], class_id));
                assert(a.enrollments[t.enrollments.len() + j] == mid.enrollments[t.enrollments.len()
                    + j]);
            } else {
                assert(a.enrollments[t.enrollments.len() + j] == a.enrollments[a.enrollments.len()
                    - 1]);
            }
        }
        assert forall|j: int| 0 <= j < us.len() implies exists|k: int|
            0 <= k < a.enrollments.len() && enrolled_as(a.enrollments[k], #[trigger] us[j], class_id) by {
            if j < last {
                assert(rest[j] == us[j]);
                let k = choose|k: int|
                    0 <= k < mid.enrollments.len() && enrolled_as(
                        mid.enrollments[k],
                        #[trigger] rest[j],
                        class_id,
                    );
                assert(a.enrollments[k] == mid.enrollments[k]);
            } else {
                assert(enrolled_as(a.enrollments[a.enrollments.len() - 1], us[j], class_id));
            }
        }
    }
}

/// Where the class and every listed group exist and the enrollment ids have
/// room for one enrollment per listed user, the database takes every write
/// that an enrollment request asks for (in particular no user key is
/// inserted twice, and every enrollment refers to an existing user, class
/// and group), and afterwards every listed user has a row and is enrolled
/// into the class in their group. Users that were there are kept, and every
/// added user is one of the listed ones.
pub proof fn law_roster_enrolls_everyone(
    t: VoltronTables,
    class_id: i32,
    us: Seq<EnrollUserDto>,
    ws: Seq<VoltronWrite>,
)
    requires
        enroll_writes(t.users, class_id, us, ws),
        t.next_enrollment_id + us.len() <= i32::MAX,
        t.has_class(class_id),
        forall|j: int| 0 <= j < us.len() ==> t.has_group((#[trigger] us[j]).group_id),
    ensures
        writes_allowed(t, ws),
        ({
            let a = apply_writes(t, ws);
            &&& forall|j: int| 0 <= j < us.len() ==> has_user(a, (#[trigger] us[j]).user_id@)
            &&& forall|j: int|
                0 <= j < us.len() ==> exists|k: int|
                    0 <= k < a.enrollments.len() && enrolled_as(
                        a.enrollments[k],
                        #[trigger] us[j],
                        class_id,
                    )
            &&& forall|k: int| 0 <= k < t.users.len() ==> #[trigger] a.users[k] == t.users[k]
            &&& forall|k: int|
                t.users.len() <= k < a.users.len() ==> exists|j: int|
                    0 <= j < us.len() && (#[trigger] a.users[k]).user_id == us[j].user_id
        }),
{
    lemma_roster_applied(t, class_id, us, ws);
    let a = apply_writes(t, ws);
    assert forall|j: int| 0 <= j < us.len() implies has_user(a, (#[trigger] us[j]).user_id@) by {
        lemma_users_with_id_exists(a.users, us[j].user_id@);
    }
}

proof fn lemma_class_enrollments_append(s: Seq<Enrollment>, e: Seq<Enrollment>, class_id: i32)
    requires
        forall|j: int| 0 <= j < e.len() ==> (#[trigger] e[j]).class_id == class_id,
    ensures
        class_enrollments(s + e, class_id) == class_enrollments(s, class_id) + e,
    decreases e.len(),
{
    if e.len() == 0 {
        assert(s + e =~= s);
        assert(class_enrollments(s, class_id) + e =~= class_enrollments(s, class_id));
    } else {
        let e2 = e.drop_last();
        assert forall|j: int| 0 <= j < e2.len() implies (#[trigger] e2[j]).class_id == class_id by {
            assert(e2[j] == e[j]);
        }
        lemma_class_enrollments_append(s, e2, class_id);
        assert((s + e).drop_last() =~= s + e2);
        assert((s + e).last() == e.last());
        assert(e[e.len() - 1].class_id == class_id);
        assert(class_enrollments(s, class_id) + e =~= class_enrollments(s, class_id) + e2 + seq![
            e.last(),
        ]);
    }
}

/// Enrolling a roster into an existing class that had no enrollments (with
/// existing groups and room for the enrollment ids, so that the database
/// takes every write) and then asking for the class's roster gives the
/// listed users back, in the listed order (a user listed twice comes back
/// twice).
pub proof fn law_roster_round_trip(
    t: VoltronTables,
    class_id: i32,
    us: Seq<EnrollUserDto>,
    ws: Seq<VoltronWrite>,
)
    requires
        enroll_writes(t.users, class_id, us, ws),
        t.next_enrollment_id + us.len() <= i32::MAX,
        t.has_class(class_id),
        forall|j: int| 0 <= j < us.len() ==> t.has_group((#[trigger] us[j]).group_id),
        class_enrollments(t.enrollments, class_id).len() == 0,
    ensures
        ({
            let a = apply_writes(t, ws);
            &&& roster_complete(a, class_id)
            &&& roster_of(a, class_id).len() == us.len()
            &&& forall|i: int|
                0 <= i < us.len() ==> (#[trigger] roster_of(a, class_id)[i]).user_id@
                    == us[i].user_id@
        }),
{
    lemma_roster_applied(t, class_id, us, ws);
    let a = apply_writes(t, ws);
    let n = t.enrollments.len();
    let added = a.enrollments.subrange(n as int, a.enrollments.len() as int);
    assert(a.enrollments =~= t.enrollments + added);
    assert forall|j: int| 0 <= j < added.len() implies (#[trigger] added[j]).class_id == class_id by {
        assert(added[j] == a.enrollments[n + j]);
        assert(enrolled_as(a.enrollments[n + j], us[j], class_id));
    }
    lemma_class_enrollments_append(t.enrollments, added, class_id);
    assert(class_enrollments(t.enrollments, class_id) =~= Seq::<Enrollment>::empty());
    assert(class_enrollments(a.enrollments, class_id) =~= added);
    assert forall|j: int| 0 <= j < added.len() implies has_user(a, (#[trigger] added[j]).user_id@) by {
        assert(added[j] == a.enrollments[n + j]);
        assert(enrolled_as(a.enrollments[n + j], us[j], class_id));
        let k = choose|k: int|
            0 <= k < a.users.len() && a.users[k].user_id@ == (#[trigger] us[j]).user_id@;
        lemma_users_with_id_exists(a.users, us[j].user_id@);
    }
    assert forall|i: int| 0 <= i < us.len() implies (#[trigger] roster_of(a, class_id)[i]).user_id@
        == us[i].user_id@ by {
        assert(added[i] == a.enrollments[n + i]);
        assert(enrolled_as(a.enrollments[n + i], us[i], class_id));
        assert(has_user(a, added[i].user_id@));
        lemma_users_with_id_keys(a.users, added[i].user_id@);
        assert(roster_of(a, class_id)[i] == first_user(a, added[i].user_id@));
    }
}

/// The users found by key are exactly the table's users with that key, in table order.
pub proof fn law_users_with_id_selects(users: Seq<User>, id: Seq<char>)
    ensures
        users_with_id(users, id) == users.filter(|x: User| x.user_id@ == id),
        forall|i: int|
            0 <= i < users_with_id(users, id).len() ==> (#[trigger] users_with_id(users, id)[i]).user_id@ == id && users.contains(
                users_with_id(users, id)[i],
            ),
        forall|i: int|
            0 <= i < users.len() && users[i].user_id@ == id ==> users_with_id(users, id).contains(
                #[trigger] users[i],
            ),
        users_with_id(users, id).len() > 0 <==> exists|k: int|
            0 <= k < users.len() && (#[trigger] users[k]).user_id@ == id,
    decreases users.len(),
{
    reveal(Seq::filter);
    let p = |x: User| x.user_id@ == id;
    if users.len() > 0 {
        let rest = users.drop_last();
        law_users_with_id_selects(rest, id);
        assert(users_with_id(users, id) =~= users.filter(p));
    }
    lemma_filter_selects(users, p);
}

/// The users that a sign-in matches are exactly the table's users with that email address and password, in table order; some user matches exactly when some row has both.
pub proof fn law_users_with_credentials_selects(users: Seq<User>, email: Seq<char>, password: Seq<char>)
    ensures
        users_with_credentials(users, email, password) == users.filter(|x: User| x.email_address@ == email && x.password@ == password),
        forall|i: int|
            0 <= i < users_with_credentials(users, email, password).len() ==> (#[trigger] users_with_credentials(users, email, password)[i]).email_address@ == email && (#[trigger] users_with_credentials(users, email, password)[i]).password@ == password && users.contains(
                users_with_credentials(users, email, password)[i],
            ),
        forall|i: int|
            0 <= i < users.len() && users[i].email_address@ == email && users[i].password@ == password ==> users_with_credentials(users, email, password).contains(
                #[trigger] users[i],
            ),
        users_with_credentials(users, email, password).len() > 0 <==> exists|k: int|
            0 <= k < users.len() && (#[trigger] users[k]).email_address@ == email && (#[trigger] users[k]).password@ == password,
    decreases users.len(),
{
    reveal(Seq::filter);
    let p = |x: User| x.email_address@ == email && x.password@ == password;
    if users.len() > 0 {
        let rest = users.drop_last();
        law_users_with_credentials_selects(rest, email, password);
        assert(users_with_credentials(users, email, password) =~= users.filter(p));
    }
    lemma_filter_selects(users, p);
}

/// The users found by email address are exactly the table's users with that address, in table order; so a reset is recorded exactly when some user has the address.
pub proof fn law_users_with_email_selects(users: Seq<User>, email: Seq<char>)
    ensures
        users_with_email(users, email) == users.filter(|x: User| x.email_address@ == email),
        forall|i: int|
            0 <= i < users_with_email(users, email).len() ==> (#[trigger] users_with_email(users, email)[i]).email_address@ == email && users.contains(
                users_with_email(users, email)[i],
            ),
        forall|i: int|
            0 <= i < users.len() && users[i].email_address@ == email ==> users_with_email(users, email).contains(
                #[trigger] users[i],
            ),
        users_with_email(users, email).len() > 0 <==> exists|k: int|
            0 <= k < users.len() && (#[trigger] users[k]).email_address@ == email,
    decreases users.len(),
{
    reveal(Seq::filter);
    let p = |x: User| x.email_address@ == email;
    if users.len() > 0 {
        let rest = users.drop_last();
        law_users_with_email_selects(rest, email);
        assert(users_with_email(users, email) =~= users.filter(p));
    }
    lemma_filter_selects(users, p);
}

/// The resets found by code are exactly the stored resets with that code, in table order; so a new password is set exactly when some stored reset carries the given code.
pub proof fn law_resets_with_code_selects(resets: Seq<PasswordReset>, code: Seq<char>)
    ensures
        resets_with_code(resets, code) == resets.filter(|x: PasswordReset| x.code@ == code),
        forall|i: int|
            0 <= i < resets_with_code(resets, code).len() ==> (#[trigger] resets_with_code(resets, code)[i]).code@ == code && resets.contains(
                resets_with_code(resets, code)[i],
            ),
        forall|i: int|
            0 <= i < resets.len() && resets[i].code@ == code ==> resets_with_code(resets, code).contains(
                #[trigger] resets[i],
            ),
        resets_with_code(resets, code).len() > 0 <==> exists|k: int|
            0 <= k < resets.len() && (#[trigger] resets[k]).code@ == code,
    decreases resets.len(),
{
    reveal(Seq::filter);
    let p = |x: PasswordReset| x.code@ == code;
    if resets.len() > 0 {
        let rest = resets.drop_last();
        law_resets_with_code_selects(rest, code);
        assert(resets_with_code(resets, code) =~= resets.filter(p));
    }
    lemma_filter_selects(resets, p);
}

/// The enrollments of a class are exactly the table's enrollments with that class id, in table order.
pub proof fn law_class_enrollments_selects(enrollments: Seq<Enrollment>, class_id: i32)
    ensures
        class_enrollments(enrollments, class_id) == enrollments.filter(|x: Enrollment| x.class_id == class_id),
        forall|i: int|
            0 <= i < class_enrollments(enrollments, class_id).len() ==> (#[trigger] class_enrollments(enrollments, class_id)[i]).class_id == class_id && enrollments.contains(
                class_enrollments(enrollments, class_id)[i],
            ),
        forall|i: int|
            0 <= i < enrollments.len() && enrollments[i].class_id == class_id ==> class_enrollments(enrollments, class_id).contains(
                #[trigger] enrollments[i],
            ),
        class_enrollments(enrollments, class_id).len() > 0 <==> exists|k: int|
            0 <= k < enrollments.len() && (#[trigger] enrollments[k]).class_id == class_id,
    decreases enrollments.len(),
{
    reveal(Seq::filter);
    let p = |x: Enrollment| x.class_id == class_id;
    if enrollments.len() > 0 {
        let rest = enrollments.drop_last();
        law_class_enrollments_selects(rest, class_id);
        assert(class_enrollments(enrollments, class_id) =~= enrollments.filter(p));
    }
    lemma_filter_selects(enrollments, p);
}

/// Every user that a roster adds carries the listed member's own fields:
/// for each listed member whose key has no row and is not listed earlier,
/// the database afterwards holds a row with that member's key, email
/// address, names and password (theme `default`, key binds `k`, no admin
/// rights), so the member can sign in with their own email address and
/// password.
pub proof fn law_roster_adds_members_as_listed(
    t: VoltronTables,
    class_id: i32,
    us: Seq<EnrollUserDto>,
    ws: Seq<VoltronWrite>,
)
    requires
        enroll_writes(t.users, class_id, us, ws),
        t.next_enrollment_id + us.len() <= i32::MAX,
        t.has_class(class_id),
        forall|j: int| 0 <= j < us.len() ==> t.has_group((#[trigger] us[j]).group_id),
    ensures
        ({
            let a = apply_writes(t, ws);
            forall|j: int|
                0 <= j < us.len() && (forall|k: int|
                    0 <= k < t.users.len() ==> t.users[k].user_id@ != (#[trigger] us[j]).user_id@)
                    && (forall|i: int| 0 <= i < j ==> (#[trigger] us[i]).user_id@ != us[j].user_id@)
                    ==> {
                    &&& exists|k: int| 0 <= k < a.users.len() && member_row(a.users[k], us[j])
                    &&& users_with_credentials(a.users, us[j].email_address@, us[j].password@).len()
                        > 0
                }
        }),
{
    lemma_roster_applied(t, class_id, us, ws);
    let a = apply_writes(t, ws);
    assert forall|j: int|
        0 <= j < us.len() && (forall|k: int|
            0 <= k < t.users.len() ==> t.users[k].user_id@ != (#[trigger] us[j]).user_id@) && (
        forall|i: int| 0 <= i < j ==> (#[trigger] us[i]).user_id@ != us[j].user_id@) implies {
        &&& exists|k: int| 0 <= k < a.users.len() && member_row(a.users[k], us[j])
        &&& users_with_credentials(a.users, us[j].email_address@, us[j].password@).len() > 0
    } by {
        lemma_users_with_id_exists(t.users, us[j].user_id@);
        assert(is_new_member(t.users, us, j));
        let k = choose|k: int|
            t.users.len() <= k < a.users.len() && member_row(a.users[k], #[trigger] us[j]);
        lemma_credentials_found(a.users, us[j].email_address@, us[j].password@, k);
    }
}

proof fn lemma_new_member_prefix(users: Seq<User>, us: Seq<EnrollUserDto>, j: int)
    requires
        0 <= j < us.len() - 1,
    ensures
        is_new_member(users, us, j) == is_new_member(users, us.drop_last(), j),
{
    let rest = us.drop_last();
    assert(rest[j] == us[j]);
    if is_new_member(users, us, j) {
        assert forall|i: int| 0 <= i < j implies (#[trigger] rest[i]).user_id@ != rest[j].user_id@ by {
            assert(rest[i] == us[i]);
        }
    }
    if is_new_member(users, rest, j) {
        assert forall|i: int| 0 <= i < j implies (#[trigger] us[i]).user_id@ != us[j].user_id@ by {
            assert(rest[i] == us[i]);
        }
    }
}

/// The session cookie that an enrollment request sets is the key of the
/// last listed member that it adds as a user, and none is set exactly when
/// it adds no user.
pub proof fn law_roster_cookie_is_last_added(users: Seq<User>, us: Seq<EnrollUserDto>)
    ensures
        last_new_member(users, us) is None <==> forall|j: int|
            0 <= j < us.len() ==> !is_new_member(users, us, j),
        last_new_member(users, us) matches Some(id) ==> exists|j: int|
            0 <= j < us.len() && is_new_member(users, us, j) && id == us[j].user_id@ && forall|
                i: int,
            |
                j < i < us.len() ==> !is_new_member(users, us, i),
    decreases us.len(),
{
    if us.len() > 0 {
        let rest = us.drop_last();
        let last = us.len() - 1;
        law_roster_cookie_is_last_added(users, rest);
        assert forall|j: int| 0 <= j < last implies is_new_member(users, us, j) == is_new_member(
            users,
            rest,
            j,
        ) by {
            lemma_new_member_prefix(users, us, j);
        }
        if is_new_member(users, us, last) {
            assert(last_new_member(users, us) == Some(us.last().user_id@));
        } else {
            if last_new_member(users, rest) is None {
                assert forall|j: int| 0 <= j < us.len() implies !is_new_member(users, us, j) by {
                    if j < last {
                        assert(!is_new_member(users, rest, j));
                    }
                }
            } else {
                let j = choose|j: int|
                    0 <= j < rest.len() && is_new_member(users, rest, j)
                        && last_new_member(users, rest)->0 == rest[j].user_id@ && forall|i: int|
                        j < i < rest.len() ==> !is_new_member(users, rest, i);
                assert(rest[j] == us[j]);
                assert(is_new_member(users, us, j));
                assert forall|i: int| j < i < us.len() implies !is_new_member(users, us, i) by {
                    if i < last {
                        assert(!is_new_member(users, rest, i));
                    }
                }
            }
        }
    }
}

/// A password change with a known code touches only the matching rows: the
/// users with the form's email address get the new password and keep
/// everything else, the resets with the form's code become invalid and
/// keep everything else, and every other row and table is unchanged.
pub proof fn law_password_reset_writes_effect(t: VoltronTables, form: PasswordResetForm)
    ensures
        writes_allowed(t, password_reset_writes(form)),
        ({
            let a = apply_writes(t, password_reset_writes(form));
            &&& a.users.len() == t.users.len()
            &&& forall|i: int|
                0 <= i < t.users.len() ==> if (#[trigger] t.users[i]).email_address@ == form.email@ {
                    a.users[i] == User { password: form.new_password, ..t.users[i] }
                } else {
                    a.users[i] == t.users[i]
                }
            &&& a.password_resets.len() == t.password_resets.len()
            &&& forall|i: int|
                0 <= i < t.password_resets.len() ==> if (#[trigger] t.password_resets[i]).code@
                    == form.code@ {
                    a.password_resets[i] == PasswordReset { valid: false, ..t.password_resets[i] }
                } else {
                    a.password_resets[i] == t.password_resets[i]
                }
            &&& a.classes == t.classes
            &&& a.groups == t.groups
            &&& a.enrollments == t.enrollments
        }),
{
    let ws = password_reset_writes(form);
    let w0 = ws[0];
    let w1 = ws[1];
    assert(ws.drop_last() =~= seq![w0]);
    lemma_apply_single(t, w0);
    let m = apply_write(t, w0);
    assert(apply_writes(t, ws) == apply_write(m, w1));
    assert(writes_allowed(t, ws));
}

} // verus!
