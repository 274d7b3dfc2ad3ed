//! A plain record and the function that fills it in.

use vstd::prelude::*;

verus! {

/// An account.
pub struct User {
    pub username: String,
    pub email: String,
    pub sign_in_count: u64,
    pub active: bool,
}

/// What a [`User`] holds, with its texts as sequences of characters.
pub ghost struct UserView {
    pub username: Seq<char>,
    pub email: Seq<char>,
    pub sign_in_count: u64,
    pub active: bool,
}

impl View for User {
    type V = UserView;

    open spec fn view(&self) -> UserView {
        UserView {
            username: self.username@,
            email: self.email@,
            sign_in_count: self.sign_in_count,
            active: self.active,
        }
    }
}

/// A new, active account with the given address and name, signed in once.
pub fn build_user(email: String, username: String) -> (user: User)
    ensures
        user@ == (UserView {
            username: username@,
            email: email@,
            sign_in_count: 1,
            active: true,
        }),
{
    User { email, username, active: true, sign_in_count: 1 }
}

} // verus!
