use vstd::prelude::*;

verus! {

/// A row of the `users` table; `user_id` is its key.
#[derive(Debug, PartialEq, Eq)]
pub struct User {
    pub user_id: String,
    pub email_address: String,
    pub first_name: String,
    pub last_name: String,
    pub theme: String,
    pub key_binds: String,
    pub admin: String,
    pub password: String,
}

impl Clone for User {
    fn clone(&self) -> (r: Self)
        ensures
            r == *self,
    {
        User {
            user_id: self.user_id.clone(),
            email_address: self.email_address.clone(),
            first_name: self.first_name.clone(),
            last_name: self.last_name.clone(),
            theme: self.theme.clone(),
            key_binds: self.key_binds.clone(),
            admin: self.admin.clone(),
            password: self.password.clone(),
        }
    }
}

/// The fields of a new user, its key included.
#[derive(Debug, PartialEq, Eq)]
pub struct UserDto {
    pub user_id: String,
    pub email_address: String,
    pub first_name: String,
    pub last_name: String,
    pub theme: String,
    pub key_binds: String,
    pub admin: String,
    pub password: String,
}

impl Clone for UserDto {
    fn clone(&self) -> (r: Self)
        ensures
            r == *self,
    {
        UserDto {
            user_id: self.user_id.clone(),
            email_address: self.email_address.clone(),
            first_name: self.first_name.clone(),
            last_name: self.last_name.clone(),
            theme: self.theme.clone(),
            key_binds: self.key_binds.clone(),
            admin: self.admin.clone(),
            password: self.password.clone(),
        }
    }
}

/// A row of the `classes` table.
#[derive(Debug, PartialEq, Eq)]
pub struct Class {
    pub class_id: i32,
    pub institution: String,
    pub name: String,
    pub instructor: String,
    pub editor_language: String,
    pub user_id: String,
}

impl Clone for Class {
    fn clone(&self) -> (r: Self)
        ensures
            r == *self,
    {
        Class {
            class_id: self.class_id,
            institution: self.institution.clone(),
            name: self.name.clone(),
            instructor: self.instructor.clone(),
            editor_language: self.editor_language.clone(),
            user_id: self.user_id.clone(),
        }
    }
}

/// The fields of a new class; the table assigns `class_id`.
#[derive(Debug, PartialEq, Eq)]
pub struct ClassDto {
    pub institution: String,
    pub name: String,
    pub instructor: String,
    pub editor_language: String,
    pub user_id: String,
}

impl Clone for ClassDto {
    fn clone(&self) -> (r: Self)
        ensures
            r == *self,
    {
        ClassDto {
            institution: self.institution.clone(),
            name: self.name.clone(),
            instructor: self.instructor.clone(),
            editor_language: self.editor_language.clone(),
            user_id: self.user_id.clone(),
        }
    }
}

/// A row of the `groups` table: a group of class `class_id`.
#[derive(Debug, PartialEq, Eq)]
pub struct Group {
    pub group_id: i32,
    pub name: String,
    pub editor_link: String,
    pub class_id: i32,
}

impl Clone for Group {
    fn clone(&self) -> (r: Self)
        ensures
            r == *self,
    {
        Group {
            group_id: self.group_id,
            name: self.name.clone(),
            editor_link: self.editor_link.clone(),
            class_id: self.class_id,
        }
    }
}

/// The fields of a new group.
#[derive(Debug, PartialEq, Eq)]
pub struct GroupDto {
    pub name: String,
    pub editor_link: String,
    pub class_id: i32,
}

impl Clone for GroupDto {
    fn clone(&self) -> (r: Self)
        ensures
            r == *self,
    {
        GroupDto {
            name: self.name.clone(),
            editor_link: self.editor_link.clone(),
            class_id: self.class_id,
        }
    }
}

/// A row of the `enrollments` table: `user_id` is in group `group_id` of class `class_id`.
#[derive(Debug, PartialEq, Eq)]
pub struct Enrollment {
    pub enrollment_id: i32,
    pub user_id: String,
    pub class_id: i32,
    pub group_id: i32,
}

impl Clone for Enrollment {
    fn clone(&self) -> (r: Self)
        ensures
            r == *self,
    {
        Enrollment {
            enrollment_id: self.enrollment_id,
            user_id: self.user_id.clone(),
            class_id: self.class_id,
            group_id: self.group_id,
        }
    }
}

/// The fields of a new enrollment.
#[derive(Debug, PartialEq, Eq)]
pub struct EnrollmentDto {
    pub user_id: String,
    pub class_id: i32,
    pub group_id: i32,
}

impl Clone for EnrollmentDto {
    fn clone(&self) -> (r: Self)
        ensures
            r == *self,
    {
        EnrollmentDto {
            user_id: self.user_id.clone(),
            class_id: self.class_id,
            group_id: self.group_id,
        }
    }
}

/// A user to enroll, with the group to put them in.
#[derive(Debug, PartialEq, Eq)]
pub struct EnrollUserDto {
    pub user_id: String,
    pub email_address: String,
    pub first_name: String,
    pub last_name: String,
    pub password: String,
    pub group_id: i32,
}

impl Clone for EnrollUserDto {
    fn clone(&self) -> (r: Self)
        ensures
            r == *self,
    {
        EnrollUserDto {
            user_id: self.user_id.clone(),
            email_address: self.email_address.clone(),
            first_name: self.first_name.clone(),
            last_name: self.last_name.clone(),
            password: self.password.clone(),
            group_id: self.group_id,
        }
    }
}

/// A request to enroll users into class `class_id`.
#[derive(Debug, PartialEq, Eq)]
pub struct EnrollmentRequestDto {
    pub class_id: i32,
    pub users: Vec<EnrollUserDto>,
}

/// A row of the `password_resets` table.
#[derive(Debug, PartialEq, Eq)]
pub struct PasswordReset {
    pub password_reset_id: i32,
    pub email: String,
    pub code: String,
    pub valid: bool,
    pub unique_request: String,
}

impl Clone for PasswordReset {
    fn clone(&self) -> (r: Self)
        ensures
            r == *self,
    {
        PasswordReset {
            password_reset_id: self.password_reset_id,
            email: self.email.clone(),
            code: self.code.clone(),
            valid: self.valid,
            unique_request: self.unique_request.clone(),
        }
    }
}

/// The fields of a new password reset.
#[derive(Debug, PartialEq, Eq)]
pub struct PasswordResetDto {
    pub email: String,
    pub code: String,
    pub valid: bool,
    pub unique_request: String,
}

impl Clone for PasswordResetDto {
    fn clone(&self) -> (r: Self)
        ensures
            r == *self,
    {
        PasswordResetDto {
            email: self.email.clone(),
            code: self.code.clone(),
            valid: self.valid,
            unique_request: self.unique_request.clone(),
        }
    }
}

/// A session carried by the `user_id` cookie: the token is the user's key.
#[derive(Debug, PartialEq, Eq)]
pub struct UserSession {
    pub user_token: String,
}

impl UserSession {
    /// The session for a cookie value; an empty value is refused
    /// (the request is then unauthorized).
    pub fn from_token(token: String) -> (r: Option<UserSession>)
        ensures
            r is None <==> token@.len() == 0,
            r matches Some(s) ==> s.user_token@ == token@,
    {
        if token.as_str().is_empty() {
            None
        } else {
            Some(UserSession { user_token: token })
        }
    }
}

} // verus!
