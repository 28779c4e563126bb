//! Users.

use vstd::prelude::*;

verus! {

/// A user, as shown.
#[derive(Debug, Clone)]
pub struct User {
    pub id: i64,
    pub username: String,
}

/// What a client gives to create a user.
pub struct UserForCreate {
    pub username: String,
    pub pwd_clear: String,
}

/// A user with what login needs: the stored password and the salts (UUIDs,
/// held as their sixteen bytes).
#[derive(Debug, Clone)]
pub struct UserForLogin {
    pub id: i64,
    pub username: String,
    pub pwd: Option<String>,
    pub pwd_salt: [u8; 16],
    pub token_salt: [u8; 16],
}

/// A user with what authentication needs.
#[derive(Debug, Clone)]
pub struct UserForAuth {
    pub id: i64,
    pub username: String,
    pub token_salt: [u8; 16],
}

/// The user shapes that can be read by user queries.
pub trait UserBy {

}

impl UserBy for User {

}

impl UserBy for UserForLogin {

}

impl UserBy for UserForAuth {

}

/// The model controller of users.
pub struct UserBmc;

} // verus!
