use vstd::prelude::*;

use crate::voltron::models::{
    Class, ClassDto, EnrollUserDto, EnrollmentDto, EnrollmentRequestDto, GroupDto,
    PasswordResetDto, User, UserDto, UserSession,
};
pub use crate::voltron::queries::{get_roster, get_user, is_existing_user};
use crate::voltron::queries::{
    find_resets_with_code, find_users_with_credentials, find_users_with_email, resets_with_code,
    users_with_credentials, users_with_email,
};
use crate::voltron::store::{users_with_id, VoltronStore, VoltronWrite};

verus! {

/// The form a user signs in with.
#[derive(Debug, PartialEq, Eq)]
pub struct UserLogin {
    pub email_address: String,
    pub user_password: String,
}

/// The form that asks for a password reset.
#[derive(Debug, PartialEq, Eq)]
pub struct ResetForm {
    pub email: String,
}

/// The form that sets a new password with a reset code.
#[derive(Debug, PartialEq, Eq)]
pub struct PasswordResetForm {
    pub email: String,
    pub new_password: String,
    pub code: String,
}

/// A signed-in user and the session cookie to set.
#[derive(Debug, PartialEq, Eq)]
pub struct SignIn {
    pub cookie: String,
    pub user: User,
}

/// The writes that a request asks for, and its answer.
#[derive(Debug, PartialEq, Eq)]
pub struct Reply {
    pub writes: Vec<VoltronWrite>,
    pub message: String,
}

/// An enrollment request's writes, the session cookie that it sets if it
/// added a user (the last one added), and its answer.
#[derive(Debug, PartialEq, Eq)]
pub struct Enrolled {
    pub writes: Vec<VoltronWrite>,
    pub cookie: Option<String>,
    pub message: String,
}

/// A user to add, the session cookie to set, and the added user.
#[derive(Debug, PartialEq, Eq)]
pub struct AddedUser {
    pub writes: Vec<VoltronWrite>,
    pub cookie: String,
    pub user: UserDto,
}

/// The code that every password reset gets.
pub open spec fn reset_code() -> Seq<char> {
    "ABCDE"@
}

/// `d` is the reset that a request for `email` records: the fixed code,
/// valid, with request tag `HI`.
pub open spec fn reset_record(d: PasswordResetDto, email: String) -> bool {
    &&& d.email == email
    &&& d.code@ == reset_code()
    &&& d.valid
    &&& d.unique_request@ == "HI"@
}

/// The writes of a password change with a known code: the new password for
/// the users with the email address, then the code's resets made invalid.
pub open spec fn password_reset_writes(f: PasswordResetForm) -> Seq<VoltronWrite> {
    seq![
        VoltronWrite::SetPassword { email: f.email, password: f.new_password },
        VoltronWrite::InvalidateResetCode { code: f.code },
    ]
}

/// `d` is the user that an enrollment adds for `u`: `u`'s fields, theme
/// `default`, key binds `k`, and no admin rights.
pub open spec fn added_member(d: UserDto, u: EnrollUserDto) -> bool {
    &&& d.user_id == u.user_id
    &&& d.email_address == u.email_address
    &&& d.first_name == u.first_name
    &&& d.last_name == u.last_name
    &&& d.password == u.password
    &&& d.theme@ == "default"@
    &&& d.key_binds@ == "k"@
    &&& d.admin@ == "false"@
}

/// `d` enrolls `u` into class `class_id`, in `u`'s group.
pub open spec fn member_enrollment(d: EnrollmentDto, u: EnrollUserDto, class_id: i32) -> bool {
    &&& d.user_id == u.user_id
    &&& d.class_id == class_id
    &&& d.group_id == u.group_id
}

/// `us[i]` has no user row yet and is not listed before `i`.
pub open spec fn is_new_member(users: Seq<User>, us: Seq<EnrollUserDto>, i: int) -> bool {
    &&& users_with_id(users, us[i].user_id@).len() == 0
    &&& forall|j: int| 0 <= j < i ==> (#[trigger] us[j]).user_id@ != us[i].user_id@
}

/// `ws` are the writes that enroll `us` into class `class_id`, in order:
/// for each member, the member's user row if it is new, then the enrollment.
pub open spec fn enroll_writes(
    users: Seq<User>,
    class_id: i32,
    us: Seq<EnrollUserDto>,
    ws: Seq<VoltronWrite>,
) -> bool
    decreases us.len(),
{
    if us.len() == 0 {
        ws.len() == 0
    } else {
        let u = us.last();
        if is_new_member(users, us, us.len() - 1) {
            &&& ws.len() >= 2
            &&& enroll_writes(users, class_id, us.drop_last(), ws.subrange(0, ws.len() - 2))
            &&& ws[ws.len() - 2] matches VoltronWrite::InsertUser(d) && added_member(d, u)
            &&& ws.last() matches VoltronWrite::InsertEnrollment(e) && member_enrollment(
                e,
                u,
                class_id,
            )
        } else {
            &&& ws.len() >= 1
            &&& enroll_writes(users, class_id, us.drop_last(), ws.drop_last())
            &&& ws.last() matches VoltronWrite::InsertEnrollment(e) && member_enrollment(
                e,
                u,
                class_id,
            )
        }
    }
}

/// The key of the last new member of `us`, if any.
pub open spec fn last_new_member(users: Seq<User>, us: Seq<EnrollUserDto>) -> Option<Seq<char>>
    decreases us.len(),
{
    if us.len() == 0 {
        None
    } else if is_new_member(users, us, us.len() - 1) {
        Some(us.last().user_id@)
    } else {
        last_new_member(users, us.drop_last())
    }
}

/// The view of an optional string.
pub open spec fn opt_view(o: Option<String>) -> Option<Seq<char>> {
    match o {
        Some(s) => Some(s@),
        None => None,
    }
}

/// Signs in with email address and password: the first matching user, and
/// that user's key as session cookie.
pub fn sign_in(store: &VoltronStore, user: UserLogin) -> (r: SignIn)
    requires
        users_with_credentials(store@.users, user.email_address@, user.user_password@).len() > 0,
    ensures
        r.user == users_with_credentials(
            store@.users,
            user.email_address@,
            user.user_password@,
        )[0],
        r.cookie@ == r.user.user_id@,
{
    let current_user = find_users_with_credentials(&store.users, &user.email_address, &user.user_password);
    let cookie = current_user[0].user_id.clone();
    SignIn { cookie, user: current_user[0].clone() }
}

/// Signs out: the answer once the session cookie is removed.
pub fn sign_out() -> (r: String)
    ensures
        r@ == "User logged out"@,
{
    "User logged out".to_owned()
}

/// Asks for a password reset: if some user has the email address, a reset
/// with the fixed code is recorded for it.
pub fn create_reset(store: &VoltronStore, password_reset: ResetForm) -> (r: Reply)
    ensures
        users_with_email(store@.users, password_reset.email@).len() == 0 ==> {
            &&& r.writes@.len() == 0
            &&& r.message@ == "User with given email address is not found"@
        },
        users_with_email(store@.users, password_reset.email@).len() > 0 ==> {
            &&& r.writes@.len() == 1
            &&& r.writes@[0] matches VoltronWrite::InsertPasswordReset(d) && reset_record(
                d,
                password_reset.email,
            )
            &&& r.message@ == "Check given email"@
        },
{
    let is_user = find_users_with_email(&store.users, &password_reset.email);
    let mut writes: Vec<VoltronWrite> = Vec::new();
    if is_user.len() == 0 {
        Reply { writes, message: "User with given email address is not found".to_owned() }
    } else {
        let new_reset = PasswordResetDto {
            email: password_reset.email,
            code: "ABCDE".to_owned(),
            valid: true,
            unique_request: "HI".to_owned(),
        };
        writes.push(VoltronWrite::InsertPasswordReset(new_reset));
        Reply { writes, message: "Check given email".to_owned() }
    }
}

/// Sets a new password with a reset code: if some reset has the code, the
/// users with the email address get the new password and the resets with
/// the code become invalid. The code is not checked against the email
/// address, nor for being still valid.
pub fn reset_password(store: &VoltronStore, password_reset: PasswordResetForm) -> (r: Reply)
    ensures
        resets_with_code(store@.password_resets, password_reset.code@).len() == 0 ==> {
            &&& r.writes@.len() == 0
            &&& r.message@ == "code is invalid"@
        },
        resets_with_code(store@.password_resets, password_reset.code@).len() > 0 ==> {
            &&& r.writes@ == password_reset_writes(password_reset)
            &&& r.message@ == "Succesfully reset password"@
        },
{
    let is_code_valid = find_resets_with_code(&store.password_resets, &password_reset.code);
    let mut writes: Vec<VoltronWrite> = Vec::new();
    if is_code_valid.len() == 0 {
        Reply { writes, message: "code is invalid".to_owned() }
    } else {
        writes.push(
            VoltronWrite::SetPassword {
                email: password_reset.email,
                password: password_reset.new_password,
            },
        );
        writes.push(VoltronWrite::InvalidateResetCode { code: password_reset.code });
        Reply { writes, message: "Succesfully reset password".to_owned() }
    }
}

fn listed_before(us: &Vec<EnrollUserDto>, i: usize, id: &String) -> (b: bool)
    requires
        i <= us.len(),
    ensures
        b == exists|j: int| 0 <= j < i && (#[trigger] us@[j]).user_id@ == id@,
{
    let mut j: usize = 0;
    while j < i
        invariant
            i <= us.len(),
            j <= i,
            forall|k: int| 0 <= k < j ==> (#[trigger] us@[k]).user_id@ != id@,
        decreases i - j,
    {
        if us[j].user_id == *id {
            return true;
        }
        j = j + 1;
    }
    false
}

fn new_member_row(u: &EnrollUserDto) -> (d: UserDto)
    ensures
        added_member(d, *u),
{
    UserDto {
        user_id: u.user_id.clone(),
        email_address: u.email_address.clone(),
        first_name: u.first_name.clone(),
        last_name: u.last_name.clone(),
        theme: "default".to_owned(),
        key_binds: "k".to_owned(),
        admin: "false".to_owned(),
        password: u.password.clone(),
    }
}

/// The writes that enroll the first `count` members of `us` into class
/// `class_id`, and the key of the last member added as a user.
fn plan_enrollments(store: &VoltronStore, us: &Vec<EnrollUserDto>, count: usize, class_id: i32) -> (r: (
    Vec<VoltronWrite>,
    Option<String>,
))
    requires
        count <= us.len(),
    ensures
        enroll_writes(store@.users, class_id, us@.take(count as int), r.0@),
        opt_view(r.1) == last_new_member(store@.users, us@.take(count as int)),
{
    let mut writes: Vec<VoltronWrite> = Vec::new();
    let mut cookie: Option<String> = None;
    let mut i: usize = 0;
    while i < count
        invariant
            count <= us.len(),
            i <= count,
            enroll_writes(store@.users, class_id, us@.take(i as int), writes@),
            opt_view(cookie) == last_new_member(store@.users, us@.take(i as int)),
        decreases count - i,
    {
        let ghost prefix = us@.take(i + 1);
        let ghost before = writes@;
        assert(prefix.drop_last() =~= us@.take(i as int));
        let u = &us[i];
        let exists_now = is_existing_user(store, u.user_id.clone());
        let earlier = listed_before(us, i, &u.user_id);
        let is_new = !exists_now && !earlier;
        assert(is_new == is_new_member(store@.users, prefix, i as int)) by {
            assert(prefix[i as int] == us@[i as int]);
            if earlier {
                let j = choose|j: int| 0 <= j < i && (#[trigger] us@[j]).user_id@ == u.user_id@;
                assert(prefix[j] == us@[j]);
            } else {
                assert forall|j: int| 0 <= j < i implies (#[trigger] prefix[j]).user_id@
                    != prefix[i as int].user_id@ by {
                    assert(prefix[j] == us@[j]);
                }
            }
        }
        if is_new {
            writes.push(VoltronWrite::InsertUser(new_member_row(u)));
            cookie = Some(u.user_id.clone());
        }
        writes.push(
            VoltronWrite::InsertEnrollment(
                EnrollmentDto { user_id: u.user_id.clone(), class_id, group_id: u.group_id },
            ),
        );
        assert(prefix.last() == us@[i as int]);
        if is_new {
            assert(writes@.subrange(0, writes@.len() - 2) =~= before);
        } else {
            assert(writes@.drop_last() =~= before);
        }
        i = i + 1;
    }
    (writes, cookie)
}

/// Enrolls the first user of the request into the class: adds the user if
/// no user has the key yet (which sets the session cookie to that key),
/// then the enrollment.
pub fn add_enrollment(store: &VoltronStore, enroll: EnrollmentRequestDto) -> (r: Enrolled)
    requires
        enroll.users.len() > 0,
    ensures
        enroll_writes(store@.users, enroll.class_id, enroll.users@.take(1), r.writes@),
        opt_view(r.cookie) == last_new_member(store@.users, enroll.users@.take(1)),
        r.message@ == "Successfully enrolled student"@,
{
    let (writes, cookie) = plan_enrollments(store, &enroll.users, 1, enroll.class_id);
    Enrolled { writes, cookie, message: "Successfully enrolled student".to_owned() }
}

/// Enrolls every user of the roster into the class, in order: each user
/// that is neither in the table nor added earlier in the roster is added
/// first (the session cookie ends up with the last such key).
#[allow(unused_variables)]
pub fn add_roster(store: &VoltronStore, user_session: UserSession, roster_request: EnrollmentRequestDto) -> (r:
    Enrolled)
    ensures
        enroll_writes(store@.users, roster_request.class_id, roster_request.users@, r.writes@),
        opt_view(r.cookie) == last_new_member(store@.users, roster_request.users@),
        r.message@ == "Successfully added roster"@,
{
    let n = roster_request.users.len();
    let (writes, cookie) = plan_enrollments(store, &roster_request.users, n, roster_request.class_id);
    assert(roster_request.users@.take(n as int) =~= roster_request.users@);
    Enrolled { writes, cookie, message: "Successfully added roster".to_owned() }
}

/// Adds a user; the user's key becomes the session cookie.
pub fn add_user(user: UserDto) -> (r: AddedUser)
    ensures
        r.writes@ == seq![VoltronWrite::InsertUser(user)],
        r.cookie@ == user.user_id@,
        r.user == user,
{
    let new_user = user.clone();
    let cookie = user.user_id.clone();
    let mut writes: Vec<VoltronWrite> = Vec::new();
    writes.push(VoltronWrite::InsertUser(user));
    AddedUser { writes, cookie, user: new_user }
}

/// Adds a class.
pub fn add_class(class_dto: ClassDto) -> (r: Reply)
    ensures
        r.writes@ == seq![VoltronWrite::InsertClass(class_dto)],
        r.message@ == "Successfully added class"@,
{
    let mut writes: Vec<VoltronWrite> = Vec::new();
    writes.push(VoltronWrite::InsertClass(class_dto));
    Reply { writes, message: "Successfully added class".to_owned() }
}

/// Adds a group.
pub fn add_group(group_dto: GroupDto) -> (r: Reply)
    ensures
        r.writes@ == seq![VoltronWrite::InsertGroup(group_dto)],
        r.message@ == "Successfully added group"@,
{
    let mut writes: Vec<VoltronWrite> = Vec::new();
    writes.push(VoltronWrite::InsertGroup(group_dto));
    Reply { writes, message: "Successfully added group".to_owned() }
}

/// Sets the editor language of the class with the given id.
pub fn change_language(class: Class) -> (r: Reply)
    ensures
        r.writes@ == seq![
            VoltronWrite::SetEditorLanguage {
                class_id: class.class_id,
                editor_language: class.editor_language,
            },
        ],
        r.message@ == "Language updated successfully"@,
{
    let mut writes: Vec<VoltronWrite> = Vec::new();
    writes.push(
        VoltronWrite::SetEditorLanguage {
            class_id: class.class_id,
            editor_language: class.editor_language,
        },
    );
    Reply { writes, message: "Language updated successfully".to_owned() }
}

} // verus!
