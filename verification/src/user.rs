//! Identity records and the forms a client fills in.

use vstd::prelude::*;
use vstd::string::*;

verus! {

/// Whether `email_address` accepts a text as an address.
pub uninterp spec fn email_well_formed(address: Seq<char>) -> bool;

/// `EmailAddress::is_valid` of `email_address`, which holds exactly where
/// `EmailAddress::from_str` succeeds.
#[verifier::external_body]
pub(crate) fn email_is_valid(address: &str) -> (r: bool)
    ensures
        r == email_well_formed(address@),
{
    email_address::EmailAddress::is_valid(address)
}

/// Whether two texts hold the same characters.
pub fn same_text(a: &str, b: &str) -> (r: bool)
    ensures
        r == (a@ == b@),
{
    let left = String::from_str(a);
    let right = String::from_str(b);
    left == right
}

/// The identity record kept in storage.
#[derive(Clone, Debug)]
pub struct User {
    pub id: i32,
    pub uuid: String,
    pub username: String,
    pub email: String,
    pub password: String,
    pub is_admin: bool,
}

impl User {
    /// A copy of the record, field by field.
    pub fn clone_record(&self) -> (r: Self)
        ensures
            r.id == self.id,
            r.uuid@ == self.uuid@,
            r.username@ == self.username@,
            r.email@ == self.email@,
            r.password@ == self.password@,
            r.is_admin == self.is_admin,
    {
        User {
            id: self.id,
            uuid: self.uuid.clone(),
            username: self.username.clone(),
            email: self.email.clone(),
            password: self.password.clone(),
            is_admin: self.is_admin,
        }
    }
}

/// What a client sends to open an account.
#[derive(Clone, Debug)]
pub struct RegisterUser {
    pub username: String,
    pub email: String,
    pub password: String,
}

/// The message for a key that names no field.
pub open spec fn invalid_key_text(key: Seq<char>) -> Seq<char> {
    "Invalid key: "@ + key
}

impl RegisterUser {
    /// The form as lines of text.
    pub fn to_string(&self) -> (r: String)
        ensures
            r@ == "Username: "@ + self.username@ + "\nEmail: "@ + self.email@ + "\nPassword: "@
                + self.password@,
    {
        String::from_str("Username: ").concat(self.username.as_str()).concat("\nEmail: ").concat(
            self.email.as_str(),
        ).concat("\nPassword: ").concat(self.password.as_str())
    }

    /// The form with one field replaced.
    pub open spec fn with_field(&self, key: Seq<char>, value: Seq<char>) -> (
        Seq<char>,
        Seq<char>,
        Seq<char>,
    ) {
        if key == "username"@ {
            (value, self.email@, self.password@)
        } else if key == "email"@ {
            (self.username@, value, self.password@)
        } else {
            (self.username@, self.email@, value)
        }
    }

    /// Whether `key` names a field of the form.
    pub open spec fn has_field(key: Seq<char>) -> bool {
        key == "username"@ || key == "email"@ || key == "password"@
    }

    /// A copy with the field named by `key` set to `value`. An address must be
    /// well formed; a key that names no field is answered with a message.
    pub fn update_field(&self, key: &str, value: String) -> (r: Result<Self, String>)
        requires
            key@ == "email"@ ==> email_well_formed(value@),
        ensures
            Self::has_field(key@) ==> r is Ok,
            r matches Ok(u) ==> Self::has_field(key@) && (u.username@, u.email@, u.password@)
                == self.with_field(key@, value@),
            r matches Err(m) ==> m@ == invalid_key_text(key@),
    {
        let mut user = RegisterUser {
            username: self.username.clone(),
            email: self.email.clone(),
            password: self.password.clone(),
        };
        if same_text(key, "username") {
            user.username = value;
        } else if same_text(key, "email") {
            user.email = value;
        } else if same_text(key, "password") {
            user.password = value;
        } else {
            return Err(String::from_str("Invalid key: ").concat(key));
        }
        Ok(user)
    }

    /// [`RegisterUser::update_field`] for any input: `None` where the key is
    /// `email` and the value is no well-formed address.
    pub fn try_update_field(&self, key: &str, value: String) -> (r: Option<Result<Self, String>>)
        ensures
            r is None <==> (key@ == "email"@ && !email_well_formed(value@)),
            r matches Some(Ok(u)) ==> Self::has_field(key@) && (u.username@, u.email@, u.password@)
                == self.with_field(key@, value@),
            r matches Some(Err(m)) ==> !Self::has_field(key@) && m@ == invalid_key_text(key@),
    {
        if same_text(key, "email") && !email_is_valid(value.as_str()) {
            None
        } else {
            Some(self.update_field(key, value))
        }
    }
}

/// What a client sends to log in.
#[derive(Clone, Debug, Default)]
pub struct LoginUser {
    pub username: String,
    pub password: String,
}

impl LoginUser {
    /// The form as lines of text.
    pub fn to_string(&self) -> (r: String)
        ensures
            r@ == "Username: "@ + self.username@ + "\nPassword: "@ + self.password@,
    {
        String::from_str("Username: ").concat(self.username.as_str()).concat("\nPassword: ").concat(
            self.password.as_str(),
        )
    }

    /// A copy with the field named by `key` set to `value`; a key that names
    /// no field is answered with a message.
    pub fn update_field(&self, key: &str, value: String) -> (r: Result<Self, String>)
        ensures
            key@ == "username"@ ==> (r matches Ok(u) && u.username@ == value@ && u.password@
                == self.password@),
            key@ == "password"@ ==> (r matches Ok(u) && u.username@ == self.username@
                && u.password@ == value@),
            key@ != "username"@ && key@ != "password"@ ==> (r matches Err(m) && m@
                == invalid_key_text(key@)),
    {
        let mut user = LoginUser {
            username: self.username.clone(),
            password: self.password.clone(),
        };
        proof {
            reveal_strlit("username");
            reveal_strlit("password");
            assert("username"@[0] != "password"@[0]);
        }
        if same_text(key, "username") {
            user.username = value;
        } else if same_text(key, "password") {
            user.password = value;
        } else {
            return Err(String::from_str("Invalid key: ").concat(key));
        }
        Ok(user)
    }
}

/// The part of an identity record that is shown to clients.
#[derive(Clone, Debug, Default, PartialEq)]
pub struct UserInfo {
    pub uuid: String,
    pub username: String,
    pub is_admin: bool,
}

/// The text of a boolean.
pub open spec fn flag_text(flag: bool) -> Seq<char> {
    if flag {
        "true"@
    } else {
        "false"@
    }
}

impl UserInfo {
    /// The record as lines of text.
    pub fn to_string(&self) -> (r: String)
        ensures
            r@ == "UUID: "@ + self.uuid@ + "\nUsername: "@ + self.username@ + "\nAdmin: "@
                + flag_text(self.is_admin),
    {
        let admin = if self.is_admin {
            "true"
        } else {
            "false"
        };
        String::from_str("UUID: ").concat(self.uuid.as_str()).concat("\nUsername: ").concat(
            self.username.as_str(),
        ).concat("\nAdmin: ").concat(admin)
    }

    /// The empty record: no id, no name, not elevated.
    pub fn new() -> (r: Self)
        ensures
            r.uuid@ == Seq::<char>::empty(),
            r.username@ == Seq::<char>::empty(),
            !r.is_admin,
    {
        Self { uuid: String::new(), username: String::new(), is_admin: false }
    }

    /// The public part of a stored record.
    pub fn from_user(user: User) -> (r: Self)
        ensures
            r.uuid@ == user.uuid@,
            r.username@ == user.username@,
            r.is_admin == user.is_admin,
    {
        Self { uuid: user.uuid, username: user.username, is_admin: user.is_admin }
    }
}

} // verus!
