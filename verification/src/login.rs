//! The command surface's credential check.  It never fails: it returns a
//! success flag with a message, and bad credentials are an ordinary result,
//! not an error.

use vstd::prelude::*;
use vstd::string::StringExecFns;

verus! {

/// The outcome of a login attempt.
pub struct LoginResponse {
    pub success: bool,
    pub message: String,
}

/// Checks the given credentials against the configured pair; succeeds
/// exactly when both match.
pub fn login(username: String, password: String) -> (r: LoginResponse)
    ensures
        r.success == (username@ == "admin"@ && password@ == "password123"@),
        r.success ==> r.message@ == "Login successful"@,
        !r.success ==> r.message@ == "Invalid credentials"@,
{
    let expected_user = String::from_str("admin");
    let expected_pass = String::from_str("password123");
    if username.eq(&expected_user) && password.eq(&expected_pass) {
        LoginResponse { success: true, message: String::from_str("Login successful") }
    } else {
        LoginResponse { success: false, message: String::from_str("Invalid credentials") }
    }
}

} // verus!
