//! Session-manager logic: the credentials record, the portal endpoints, the
//! login form, and classification of the login response status. The HTTP
//! transport itself stays outside the library and hands statuses and header
//! values in as plain values.

use vstd::prelude::*;

verus! {

/// The credentials a run is configured with: a structured username
/// (`prefix-accountId-suffix`), a password, and an ordered customer-number
/// list. Immutable for a run.
pub struct Credentials {
    pub username: String,
    pub password: String,
    pub customer_numbers: Vec<String>,
}

/// Faults of the login operation.
#[derive(Debug, Clone, Copy, PartialEq, Eq, Structural)]
pub enum AuthError {
    /// An HTTP call of the handshake could not complete.
    RequestFailed,
    /// The login response status was outside the success range.
    Rejected(u16),
}

/// Builds the credentials record from the values read out of the
/// configuration document.
pub fn load_config(username: String, password: String, customer_numbers: Vec<String>) -> (c:
    Credentials)
    ensures
        c.username == username,
        c.password == password,
        c.customer_numbers == customer_numbers,
{
    Credentials { username, password, customer_numbers }
}

/// The portal root, fetched once before login to obtain the initial session
/// cookie.
pub fn portal_base_url() -> (r: String)
    ensures
        r@ == "https://extranet.pjhoy.fi/pirkka"@,
{
    String::from_str("https://extranet.pjhoy.fi/pirkka")
}

/// The authentication endpoint the login form is posted to.
pub fn login_url() -> (r: String)
    ensures
        r@ == "https://extranet.pjhoy.fi/pirkka/j_acegi_security_check?target=2"@,
{
    String::from_str("https://extranet.pjhoy.fi/pirkka/j_acegi_security_check?target=2")
}

/// The login form: the credentials' username and password and a fixed
/// `remember-me=false`, in that order.
pub fn login_form_params(c: &Credentials) -> (r: Vec<(String, String)>)
    ensures
        r@.len() == 3,
        r@[0].0@ == "j_username"@ && r@[0].1@ == c.username@,
        r@[1].0@ == "j_password"@ && r@[1].1@ == c.password@,
        r@[2].0@ == "remember-me"@ && r@[2].1@ == "false"@,
{
    let mut params: Vec<(String, String)> = Vec::new();
    params.push((String::from_str("j_username"), c.username.clone()));
    params.push((String::from_str("j_password"), c.password.clone()));
    params.push((String::from_str("remember-me"), String::from_str("false")));
    params
}

/// Classifies the status of the login response: a status outside the success
/// range rejects the login, carrying that status.
pub fn check_login_status(status: u16) -> (r: Result<(), AuthError>)
    ensures
        r is Ok <==> crate::schedule::is_success_status(status as int),
        !crate::schedule::is_success_status(status as int) ==> r == Err::<(), AuthError>(
            AuthError::Rejected(status),
        ),
{
    if 200 <= status && status < 300 {
        Ok(())
    } else {
        Err(AuthError::Rejected(status))
    }
}

} // verus!
