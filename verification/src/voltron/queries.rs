use vstd::prelude::*;

use crate::voltron::models::{Enrollment, PasswordReset, User, UserSession};
use crate::voltron::store::{users_with_id, VoltronStore, VoltronTables};

verus! {

/// The users with email address `email` and password `password`, in table order.
pub open spec fn users_with_credentials(users: Seq<User>, email: Seq<char>, password: Seq<char>) -> Seq<
    User,
>
    decreases users.len(),
{
    if users.len() == 0 {
        seq![]
    } else {
        users_with_credentials(users.drop_last(), email, password) + if users.last().email_address@
            == email && users.last().password@ == password {
            seq![users.last()]
        } else {
            seq![]
        }
    }
}

/// The users with email address `email`, in table order.
pub open spec fn users_with_email(users: Seq<User>, email: Seq<char>) -> Seq<User>
    decreases users.len(),
{
    if users.len() == 0 {
        seq![]
    } else {
        users_with_email(users.drop_last(), email) + if users.last().email_address@ == email {
            seq![users.last()]
        } else {
            seq![]
        }
    }
}

/// The password resets with code `code`, in table order.
pub open spec fn resets_with_code(resets: Seq<PasswordReset>, code: Seq<char>) -> Seq<PasswordReset>
    decreases resets.len(),
{
    if resets.len() == 0 {
        seq![]
    } else {
        resets_with_code(resets.drop_last(), code) + if resets.last().code@ == code {
            seq![resets.last()]
        } else {
            seq![]
        }
    }
}

/// The enrollments into class `class_id`, in table order.
pub open spec fn class_enrollments(enrollments: Seq<Enrollment>, class_id: i32) -> Seq<Enrollment>
    decreases enrollments.len(),
{
    if enrollments.len() == 0 {
        seq![]
    } else {
        class_enrollments(enrollments.drop_last(), class_id) + if enrollments.last().class_id
            == class_id {
            seq![enrollments.last()]
        } else {
            seq![]
        }
    }
}

/// There is a user with key `id`.
pub open spec fn has_user(t: VoltronTables, id: Seq<char>) -> bool {
    users_with_id(t.users, id).len() > 0
}

/// The first user with key `id`.
pub open spec fn first_user(t: VoltronTables, id: Seq<char>) -> User {
    users_with_id(t.users, id)[0]
}

/// Every user enrolled in class `class_id` has a row in `users`.
pub open spec fn roster_complete(t: VoltronTables, class_id: i32) -> bool {
    forall|i: int|
        0 <= i < class_enrollments(t.enrollments, class_id).len() ==> has_user(
            t,
            (#[trigger] class_enrollments(t.enrollments, class_id)[i]).user_id@,
        )
}

/// The users of class `class_id`: for each enrollment, in table order, the
/// first user with the enrolled key.
pub open spec fn roster_of(t: VoltronTables, class_id: i32) -> Seq<User> {
    class_enrollments(t.enrollments, class_id).map_values(|e: Enrollment| first_user(t, e.user_id@))
}

/// The users with key `id`, in table order.
pub fn find_users_with_id(users: &Vec<User>, id: &String) -> (r: Vec<User>)
    ensures
        r@ == users_with_id(users@, id@),
{
    let mut r: Vec<User> = Vec::new();
    let n = users.len();
    let mut i: usize = 0;
    while i < n
        invariant
            n == users.len(),
            i <= n,
            r@ == users_with_id(users@.take(i as int), id@),
        decreases n - i,
    {
        assert(users@.take(i + 1).drop_last() =~= users@.take(i as int));
        if users[i].user_id == *id {
            r.push(users[i].clone());
        }
        i = i + 1;
    }
    assert(users@.take(n as int) =~= users@);
    r
}

/// The users with email address `email` and password `password`, in table order.
pub fn find_users_with_credentials(users: &Vec<User>, email: &String, password: &String) -> (r: Vec<
    User,
>)
    ensures
        r@ == users_with_credentials(users@, email@, password@),
{
    let mut r: Vec<User> = Vec::new();
    let n = users.len();
    let mut i: usize = 0;
    while i < n
        invariant
            n == users.len(),
            i <= n,
            r@ == users_with_credentials(users@.take(i as int), email@, password@),
        decreases n - i,
    {
        assert(users@.take(i + 1).drop_last() =~= users@.take(i as int));
        if users[i].email_address == *email && users[i].password == *password {
            r.push(users[i].clone());
        }
        i = i + 1;
    }
    assert(users@.take(n as int) =~= users@);
    r
}

/// The users with email address `email`, in table order.
pub fn find_users_with_email(users: &Vec<User>, email: &String) -> (r: Vec<User>)
    ensures
        r@ == users_with_email(users@, email@),
{
    let mut r: Vec<User> = Vec::new();
    let n = users.len();
    let mut i: usize = 0;
    while i < n
        invariant
            n == users.len(),
            i <= n,
            r@ == users_with_email(users@.take(i as int), email@),
        decreases n - i,
    {
        assert(users@.take(i + 1).drop_last() =~= users@.take(i as int));
        if users[i].email_address == *email {
            r.push(users[i].clone());
        }
        i = i + 1;
    }
    assert(users@.take(n as int) =~= users@);
    r
}

/// The password resets with code `code`, in table order.
pub fn find_resets_with_code(resets: &Vec<PasswordReset>, code: &String) -> (r: Vec<PasswordReset>)
    ensures
        r@ == resets_with_code(resets@, code@),
{
    let mut r: Vec<PasswordReset> = Vec::new();
    let n = resets.len();
    let mut i: usize = 0;
    while i < n
        invariant
            n == resets.len(),
            i <= n,
            r@ == resets_with_code(resets@.take(i as int), code@),
        decreases n - i,
    {
        assert(resets@.take(i + 1).drop_last() =~= resets@.take(i as int));
        if resets[i].code == *code {
            r.push(resets[i].clone());
        }
        i = i + 1;
    }
    assert(resets@.take(n as int) =~= resets@);
    r
}

/// The enrollments into class `class_id`, in table order.
pub fn find_class_enrollments(enrollments: &Vec<Enrollment>, class_id: i32) -> (r: Vec<Enrollment>)
    ensures
        r@ == class_enrollments(enrollments@, class_id),
{
    let mut r: Vec<Enrollment> = Vec::new();
    let n = enrollments.len();
    let mut i: usize = 0;
    while i < n
        invariant
            n == enrollments.len(),
            i <= n,
            r@ == class_enrollments(enrollments@.take(i as int), class_id),
        decreases n - i,
    {
        assert(enrollments@.take(i + 1).drop_last() =~= enrollments@.take(i as int));
        if enrollments[i].class_id == class_id {
            r.push(enrollments[i].clone());
        }
        i = i + 1;
    }
    assert(enrollments@.take(n as int) =~= enrollments@);
    r
}

/// Whether a user has the key `a_user_id`.
pub fn is_existing_user(store: &VoltronStore, a_user_id: String) -> (r: bool)
    ensures
        r == has_user(store@, a_user_id@),
{
    let db_user = find_users_with_id(&store.users, &a_user_id);
    db_user.len() > 0
}

/// The session's user: the first user whose key is the session token.
pub fn get_user(store: &VoltronStore, user_session: UserSession) -> (r: User)
    requires
        has_user(store@, user_session.user_token@),
    ensures
        r == first_user(store@, user_session.user_token@),
{
    let current_user = find_users_with_id(&store.users, &user_session.user_token);
    current_user[0].clone()
}

/// The users of class `a_class_id`, one for each of its enrollments.
#[allow(unused_variables)]
pub fn get_roster(store: &VoltronStore, a_class_id: i32, user_session: UserSession) -> (r: Vec<User>)
    requires
        roster_complete(store@, a_class_id),
    ensures
        r@ == roster_of(store@, a_class_id),
{
    let all_enrolls = find_class_enrollments(&store.enrollments, a_class_id);
    let mut users: Vec<User> = Vec::new();
    let n = all_enrolls.len();
    let mut i: usize = 0;
    while i < n
        invariant
            n == all_enrolls.len(),
            i <= n,
            all_enrolls@ == class_enrollments(store@.enrollments, a_class_id),
            roster_complete(store@, a_class_id),
            users@ == all_enrolls@.take(i as int).map_values(
                |e: Enrollment| first_user(store@, e.user_id@),
            ),
        decreases n - i,
    {
        assert(has_user(store@, all_enrolls@[i as int].user_id@));
        let user = find_users_with_id(&store.users, &all_enrolls[i].user_id);
        users.push(user[0].clone());
        assert(all_enrolls@.take(i + 1).map_values(|e: Enrollment| first_user(store@, e.user_id@))
            =~= all_enrolls@.take(i as int).map_values(
            |e: Enrollment| first_user(store@, e.user_id@),
        ).push(first_user(store@, all_enrolls@[i as int].user_id@)));
        i = i + 1;
    }
    assert(all_enrolls@.take(n as int) =~= all_enrolls@);
    users
}

} // verus!
