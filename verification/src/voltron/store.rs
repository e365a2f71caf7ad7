use vstd::prelude::*;

use crate::serial::{ids_of, next_id, next_id_after, SerialRow};
use crate::voltron::models::{
    Class, ClassDto, Enrollment, EnrollmentDto, Group, GroupDto, PasswordReset, PasswordResetDto,
    User, UserDto,
};

verus! {

/// The contents of the voltron database: one sequence of rows per table, in
/// the order in which they are read, and the id that the next insert into
/// each table with a generated key receives. The next ids are the
/// library's model of the serial keys (see `from_tables`); the database's
/// sequences may give other ids, for instance after deletions or refused
/// inserts.
#[verifier::ext_equal]
pub struct VoltronTables {
    pub users: Seq<User>,
    pub classes: Seq<Class>,
    pub groups: Seq<Group>,
    pub enrollments: Seq<Enrollment>,
    pub password_resets: Seq<PasswordReset>,
    pub next_class_id: int,
    pub next_group_id: int,
    pub next_enrollment_id: int,
    pub next_password_reset_id: int,
}

/// The voltron database as the services read it.
#[derive(Debug, PartialEq, Eq)]
pub struct VoltronStore {
    pub users: Vec<User>,
    pub classes: Vec<Class>,
    pub groups: Vec<Group>,
    pub enrollments: Vec<Enrollment>,
    pub password_resets: Vec<PasswordReset>,
    pub next_class_id: i32,
    pub next_group_id: i32,
    pub next_enrollment_id: i32,
    pub next_password_reset_id: i32,
}

impl View for VoltronStore {
    type V = VoltronTables;

    open spec fn view(&self) -> VoltronTables {
        VoltronTables {
            users: self.users@,
            classes: self.classes@,
            groups: self.groups@,
            enrollments: self.enrollments@,
            password_resets: self.password_resets@,
            next_class_id: self.next_class_id as int,
            next_group_id: self.next_group_id as int,
            next_enrollment_id: self.next_enrollment_id as int,
            next_password_reset_id: self.next_password_reset_id as int,
        }
    }
}

/// A change that a service asks of the voltron database.
#[derive(Debug, PartialEq, Eq)]
pub enum VoltronWrite {
    InsertUser(UserDto),
    InsertClass(ClassDto),
    InsertGroup(GroupDto),
    InsertEnrollment(EnrollmentDto),
    InsertPasswordReset(PasswordResetDto),
    /// Every user with this email address gets this password.
    SetPassword { email: String, password: String },
    /// Every password reset with this code becomes invalid.
    InvalidateResetCode { code: String },
    /// Every class with this id gets this editor language.
    SetEditorLanguage { class_id: i32, editor_language: String },
}

impl Clone for VoltronWrite {
    fn clone(&self) -> (r: Self)
        ensures
            r == *self,
    {
        match self {
            VoltronWrite::InsertUser(d) => VoltronWrite::InsertUser(d.clone()),
            VoltronWrite::InsertClass(d) => VoltronWrite::InsertClass(d.clone()),
            VoltronWrite::InsertGroup(d) => VoltronWrite::InsertGroup(d.clone()),
            VoltronWrite::InsertEnrollment(d) => VoltronWrite::InsertEnrollment(d.clone()),
            VoltronWrite::InsertPasswordReset(d) => VoltronWrite::InsertPasswordReset(d.clone()),
            VoltronWrite::SetPassword { email, password } => VoltronWrite::SetPassword {
                email: email.clone(),
                password: password.clone(),
            },
            VoltronWrite::InvalidateResetCode { code } => VoltronWrite::InvalidateResetCode {
                code: code.clone(),
            },
            VoltronWrite::SetEditorLanguage { class_id, editor_language } =>
                VoltronWrite::SetEditorLanguage {
                class_id: *class_id,
                editor_language: editor_language.clone(),
            },
        }
    }
}

/// The users whose key is `id`, in table order.
pub open spec fn users_with_id(users: Seq<User>, id: Seq<char>) -> Seq<User>
    decreases users.len(),
{
    if users.len() == 0 {
        seq![]
    } else {
        users_with_id(users.drop_last(), id) + if users.last().user_id@ == id {
            seq![users.last()]
        } else {
            seq![]
        }
    }
}

/// No two users share a key.
pub open spec fn user_ids_unique(users: Seq<User>) -> bool {
    forall|i: int, j: int|
        0 <= i < users.len() && 0 <= j < users.len() && i != j ==> #[trigger] users[i].user_id@
            != #[trigger] users[j].user_id@
}

/// `u` with `password` if its email address is `email`.
pub open spec fn with_password(u: User, email: Seq<char>, password: String) -> User {
    if u.email_address@ == email {
        User { password, ..u }
    } else {
        u
    }
}

/// `r` made invalid if its code is `code`.
pub open spec fn invalidated(r: PasswordReset, code: Seq<char>) -> PasswordReset {
    if r.code@ == code {
        PasswordReset { valid: false, ..r }
    } else {
        r
    }
}

/// `c` with editor language `language` if its id is `class_id`.
pub open spec fn with_language(c: Class, class_id: i32, language: String) -> Class {
    if c.class_id == class_id {
        Class { editor_language: language, ..c }
    } else {
        c
    }
}

impl VoltronTables {
    /// Some user has key `id`.
    pub open spec fn has_user_key(self, id: Seq<char>) -> bool {
        exists|k: int| 0 <= k < self.users.len() && (#[trigger] self.users[k]).user_id@ == id
    }

    /// Some class has id `class_id`.
    pub open spec fn has_class(self, class_id: i32) -> bool {
        exists|k: int| 0 <= k < self.classes.len() && (#[trigger] self.classes[k]).class_id == class_id
    }

    /// Some group has id `group_id`.
    pub open spec fn has_group(self, group_id: i32) -> bool {
        exists|k: int| 0 <= k < self.groups.len() && (#[trigger] self.groups[k]).group_id == group_id
    }

    /// The database takes `w`: a user's key is not taken yet, a table with
    /// a generated key still has an id to give, and the rows that an
    /// inserted row refers to exist (a class's user, a group's class, an
    /// enrollment's user, class and group).
    pub open spec fn can_apply(self, w: VoltronWrite) -> bool {
        match w {
            VoltronWrite::InsertUser(d) => users_with_id(self.users, d.user_id@).len() == 0,
            VoltronWrite::InsertClass(d) => self.next_class_id < i32::MAX && self.has_user_key(
                d.user_id@,
            ),
            VoltronWrite::InsertGroup(d) => self.next_group_id < i32::MAX && self.has_class(
                d.class_id,
            ),
            VoltronWrite::InsertEnrollment(d) => {
                &&& self.next_enrollment_id < i32::MAX
                &&& self.has_user_key(d.user_id@)
                &&& self.has_class(d.class_id)
                &&& self.has_group(d.group_id)
            },
            VoltronWrite::InsertPasswordReset(_) => self.next_password_reset_id < i32::MAX,
            _ => true,
        }
    }

    /// Well-formed: user keys are unique.
    pub open spec fn wf(self) -> bool {
        user_ids_unique(self.users)
    }
}

/// The database after `w`.
pub open spec fn apply_write(t: VoltronTables, w: VoltronWrite) -> VoltronTables {
    match w {
        VoltronWrite::InsertUser(d) => VoltronTables {
            users: t.users.push(
                User {
                    user_id: d.user_id,
                    email_address: d.email_address,
                    first_name: d.first_name,
                    last_name: d.last_name,
                    theme: d.theme,
                    key_binds: d.key_binds,
                    admin: d.admin,
                    password: d.password,
                },
            ),
            ..t
        },
        VoltronWrite::InsertClass(d) => VoltronTables {
            classes: t.classes.push(
                Class {
                    class_id: t.next_class_id as i32,
                    institution: d.institution,
                    name: d.name,
                    instructor: d.instructor,
                    editor_language: d.editor_language,
                    user_id: d.user_id,
                },
            ),
            next_class_id: t.next_class_id + 1,
            ..t
        },
        VoltronWrite::InsertGroup(d) => VoltronTables {
            groups: t.groups.push(
                Group {
                    group_id: t.next_group_id as i32,
                    name: d.name,
                    editor_link: d.editor_link,
                    class_id: d.class_id,
                },
            ),
            next_group_id: t.next_group_id + 1,
            ..t
        },
        VoltronWrite::InsertEnrollment(d) => VoltronTables {
            enrollments: t.enrollments.push(
                Enrollment {
                    enrollment_id: t.next_enrollment_id as i32,
                    user_id: d.user_id,
                    class_id: d.class_id,
                    group_id: d.group_id,
                },
            ),
            next_enrollment_id: t.next_enrollment_id + 1,
            ..t
        },
        VoltronWrite::InsertPasswordReset(d) => VoltronTables {
            password_resets: t.password_resets.push(
                PasswordReset {
                    password_reset_id: t.next_password_reset_id as i32,
                    email: d.email,
                    code: d.code,
                    valid: d.valid,
                    unique_request: d.unique_request,
                },
            ),
            next_password_reset_id: t.next_password_reset_id + 1,
            ..t
        },
        VoltronWrite::SetPassword { email, password } => VoltronTables {
            users: t.users.map_values(|u: User| with_password(u, email@, password)),
            ..t
        },
        VoltronWrite::InvalidateResetCode { code } => VoltronTables {
            password_resets: t.password_resets.map_values(|r: PasswordReset| invalidated(r, code@)),
            ..t
        },
        VoltronWrite::SetEditorLanguage { class_id, editor_language } => VoltronTables {
            classes: t.classes.map_values(|c: Class| with_language(c, class_id, editor_language)),
            ..t
        },
    }
}

/// The database after the writes `ws`, in order.
pub open spec fn apply_writes(t: VoltronTables, ws: Seq<VoltronWrite>) -> VoltronTables
    decreases ws.len(),
{
    if ws.len() == 0 {
        t
    } else {
        apply_write(apply_writes(t, ws.drop_last()), ws.last())
    }
}

/// The database takes each of the writes `ws` in turn.
pub open spec fn writes_allowed(t: VoltronTables, ws: Seq<VoltronWrite>) -> bool
    decreases ws.len(),
{
    if ws.len() == 0 {
        true
    } else {
        writes_allowed(t, ws.drop_last()) && apply_writes(t, ws.drop_last()).can_apply(ws.last())
    }
}

/// One write, as a sequence, acts as that write and is taken when it is.
pub proof fn lemma_apply_single(t: VoltronTables, w: VoltronWrite)
    ensures
        apply_writes(t, seq![w]) == apply_write(t, w),
        writes_allowed(t, seq![w]) == t.can_apply(w),
{
    let ws = seq![w];
    assert(ws.drop_last() =~= Seq::<VoltronWrite>::empty());
    assert(apply_writes(t, ws.drop_last()) == t);
    assert(writes_allowed(t, ws.drop_last()));
    assert(ws.last() == w);
}

/// Some user has key `id` exactly when `users_with_id` finds one.
pub proof fn lemma_users_with_id_exists(users: Seq<User>, id: Seq<char>)
    ensures
        users_with_id(users, id).len() > 0 <==> exists|k: int|
            0 <= k < users.len() && (#[trigger] users[k]).user_id@ == id,
    decreases users.len(),
{
    if users.len() > 0 {
        let rest = users.drop_last();
        lemma_users_with_id_exists(rest, id);
        if users_with_id(rest, id).len() > 0 {
            let k = choose|k: int| 0 <= k < rest.len() && (#[trigger] rest[k]).user_id@ == id;
            assert(users[k] == rest[k]);
        }
        if exists|k: int| 0 <= k < users.len() && (#[trigger] users[k]).user_id@ == id {
            let k = choose|k: int| 0 <= k < users.len() && (#[trigger] users[k]).user_id@ == id;
            if k < users.len() - 1 {
                assert(rest[k] == users[k]);
            }
        }
    }
}

/// With unique keys, the user found for the key of `users[k]` is `users[k]`.
pub proof fn lemma_users_with_id_unique(users: Seq<User>, k: int)
    requires
        user_ids_unique(users),
        0 <= k < users.len(),
    ensures
        users_with_id(users, users[k].user_id@) == seq![users[k]],
    decreases users.len(),
{
    let id = users[k].user_id@;
    let rest = users.drop_last();
    assert(user_ids_unique(rest)) by {
        assert forall|i: int, j: int|
            0 <= i < rest.len() && 0 <= j < rest.len() && i != j implies #[trigger] rest[i].user_id@
            != #[trigger] rest[j].user_id@ by {
            assert(rest[i] == users[i] && rest[j] == users[j]);
        }
    }
    if k == users.len() - 1 {
        assert forall|i: int| 0 <= i < rest.len() implies (#[trigger] rest[i]).user_id@ != id by {
            assert(rest[i] == users[i]);
        }
        lemma_users_with_id_exists(rest, id);
        assert(users_with_id(rest, id) =~= Seq::<User>::empty());
        assert(users_with_id(users, id) =~= seq![users[k]]);
    } else {
        assert(rest[k] == users[k]);
        lemma_users_with_id_unique(rest, k);
        assert(users.last() == users[users.len() - 1]);
        assert(users_with_id(users, id) =~= seq![users[k]]);
    }
}

impl SerialRow for Class {
    open spec fn serial_id(&self) -> i32 {
        self.class_id
    }

    fn id(&self) -> (r: i32) {
        self.class_id
    }
}

impl SerialRow for Group {
    open spec fn serial_id(&self) -> i32 {
        self.group_id
    }

    fn id(&self) -> (r: i32) {
        self.group_id
    }
}

impl SerialRow for Enrollment {
    open spec fn serial_id(&self) -> i32 {
        self.enrollment_id
    }

    fn id(&self) -> (r: i32) {
        self.enrollment_id
    }
}

impl SerialRow for PasswordReset {
    open spec fn serial_id(&self) -> i32 {
        self.password_reset_id
    }

    fn id(&self) -> (r: i32) {
        self.password_reset_id
    }
}

impl VoltronStore {
    /// The store of the given tables. Each table with a generated key has
    /// its next id modelled as one more than the largest id it holds.
    pub fn from_tables(
        users: Vec<User>,
        classes: Vec<Class>,
        groups: Vec<Group>,
        enrollments: Vec<Enrollment>,
        password_resets: Vec<PasswordReset>,
    ) -> (r: VoltronStore)
        ensures
            r.users@ == users@,
            r.classes@ == classes@,
            r.next_class_id == next_id_after(ids_of(classes@)),
            r.groups@ == groups@,
            r.next_group_id == next_id_after(ids_of(groups@)),
            r.enrollments@ == enrollments@,
            r.next_enrollment_id == next_id_after(ids_of(enrollments@)),
            r.password_resets@ == password_resets@,
            r.next_password_reset_id == next_id_after(ids_of(password_resets@)),
    {
        let next_class_id = next_id(&classes);
        let next_group_id = next_id(&groups);
        let next_enrollment_id = next_id(&enrollments);
        let next_password_reset_id = next_id(&password_resets);
        VoltronStore {
            users,
            classes,
            groups,
            enrollments,
            password_resets,
            next_class_id,
            next_group_id,
            next_enrollment_id,
            next_password_reset_id,
        }
    }

    /// Performs one write that the database takes.
    pub fn apply(&mut self, w: VoltronWrite)
        requires
            old(self)@.can_apply(w),
        ensures
            final(self)@ == apply_write(old(self)@, w),
    {
        match w {
            VoltronWrite::InsertUser(d) => {
                self.users.push(
                    User {
                        user_id: d.user_id,
                        email_address: d.email_address,
                        first_name: d.first_name,
                        last_name: d.last_name,
                        theme: d.theme,
                        key_binds: d.key_binds,
                        admin: d.admin,
                        password: d.password,
                    },
                );
            },
            VoltronWrite::InsertClass(d) => {
                let id = self.next_class_id;
                self.classes.push(
                    Class {
                        class_id: id,
                        institution: d.institution,
                        name: d.name,
                        instructor: d.instructor,
                        editor_language: d.editor_language,
                        user_id: d.user_id,
                    },
                );
                self.next_class_id = id + 1;
            },
            VoltronWrite::InsertGroup(d) => {
                let id = self.next_group_id;
                self.groups.push(
                    Group { group_id: id, name: d.name, editor_link: d.editor_link, class_id: d.class_id },
                );
                self.next_group_id = id + 1;
            },
            VoltronWrite::InsertEnrollment(d) => {
                let id = self.next_enrollment_id;
                self.enrollments.push(
                    Enrollment {
                        enrollment_id: id,
                        user_id: d.user_id,
                        class_id: d.class_id,
                        group_id: d.group_id,
                    },
                );
                self.next_enrollment_id = id + 1;
            },
            VoltronWrite::InsertPasswordReset(d) => {
                let id = self.next_password_reset_id;
                self.password_resets.push(
                    PasswordReset {
                        password_reset_id: id,
                        email: d.email,
                        code: d.code,
                        valid: d.valid,
                        unique_request: d.unique_request,
                    },
                );
                self.next_password_reset_id = id + 1;
            },
            VoltronWrite::SetPassword { email, password } => {
                let ghost f = |u: User| with_password(u, email@, password);
                let mut updated: Vec<User> = Vec::new();
                let n = self.users.len();
                let mut i: usize = 0;
                while i < n
                    invariant
                        n == self.users.len(),
                        i <= n,
                        self@ == old(self)@,
                        f == (|u: User| with_password(u, email@, password)),
                        updated@ == self.users@.take(i as int).map_values(f),
                    decreases n - i,
                {
                    let mut u = self.users[i].clone();
                    if u.email_address == email {
                        u.password = password.clone();
                    }
                    updated.push(u);
                    assert(self.users@.take(i + 1).map_values(f) =~= self.users@.take(
                        i as int,
                    ).map_values(f).push(f(self.users@[i as int])));
                    i = i + 1;
                }
                assert(self.users@.take(n as int) =~= self.users@);
                self.users = updated;
            },
            VoltronWrite::InvalidateResetCode { code } => {
                let ghost f = |r: PasswordReset| invalidated(r, code@);
                let mut updated: Vec<PasswordReset> = Vec::new();
                let n = self.password_resets.len();
                let mut i: usize = 0;
                while i < n
                    invariant
                        n == self.password_resets.len(),
                        i <= n,
                        self@ == old(self)@,
                        f == (|r: PasswordReset| invalidated(r, code@)),
                        updated@ == self.password_resets@.take(i as int).map_values(f),
                    decreases n - i,
                {
                    let mut r = self.password_resets[i].clone();
                    if r.code == code {
                        r.valid = false;
                    }
                    updated.push(r);
                    assert(self.password_resets@.take(i + 1).map_values(f)
                        =~= self.password_resets@.take(i as int).map_values(f).push(
                        f(self.password_resets@[i as int]),
                    ));
                    i = i + 1;
                }
                assert(self.password_resets@.take(n as int) =~= self.password_resets@);
                self.password_resets = updated;
            },
            VoltronWrite::SetEditorLanguage { class_id, editor_language } => {
                let ghost f = |c: Class| with_language(c, class_id, editor_language);
                let mut updated: Vec<Class> = Vec::new();
                let n = self.classes.len();
                let mut i: usize = 0;
                while i < n
                    invariant
                        n == self.classes.len(),
                        i <= n,
                        self@ == old(self)@,
                        f == (|c: Class| with_language(c, class_id, editor_language)),
                        updated@ == self.classes@.take(i as int).map_values(f),
                    decreases n - i,
                {
                    let mut c = self.classes[i].clone();
                    if c.class_id == class_id {
                        c.editor_language = editor_language.clone();
                    }
                    updated.push(c);
                    assert(self.classes@.take(i + 1).map_values(f) =~= self.classes@.take(
                        i as int,
                    ).map_values(f).push(f(self.classes@[i as int])));
                    i = i + 1;
                }
                assert(self.classes@.take(n as int) =~= self.classes@);
                self.classes = updated;
            },
        }
    }

    /// Performs the writes in order, where the database takes each in turn.
    pub fn apply_all(&mut self, ws: &Vec<VoltronWrite>)
        requires
            writes_allowed(old(self)@, ws@),
        ensures
            final(self)@ == apply_writes(old(self)@, ws@),
    {
        let n = ws.len();
        let mut i: usize = 0;
        while i < n
            invariant
                n == ws.len(),
                i <= n,
                writes_allowed(old(self)@, ws@),
                self@ == apply_writes(old(self)@, ws@.take(i as int)),
            decreases n - i,
        {
            proof {
                lemma_writes_allowed_prefix(old(self)@, ws@, i as int + 1);
                assert(ws@.take(i + 1).drop_last() =~= ws@.take(i as int));
            }
            let w = ws[i].clone();
            self.apply(w);
            i = i + 1;
        }
        assert(ws@.take(n as int) =~= ws@);
    }
}

/// A prefix of writes that the database takes is taken too.
pub proof fn lemma_writes_allowed_prefix(t: VoltronTables, ws: Seq<VoltronWrite>, k: int)
    requires
        writes_allowed(t, ws),
        0 <= k <= ws.len(),
    ensures
        writes_allowed(t, ws.take(k)),
    decreases ws.len(),
{
    if k == ws.len() {
        assert(ws.take(k) =~= ws);
    } else {
        lemma_writes_allowed_prefix(t, ws.drop_last(), k);
        assert(ws.drop_last().take(k) =~= ws.take(k));
    }
}

} // verus!
