//! The computational side of logging in: normalizing the credentials the
//! prompts collect, and the exact parameters the authentication call
//! sends.

use vstd::prelude::*;
use crate::api::QueryParam;
use crate::api::QueryParamModel;
use crate::api::params_model;
use crate::text::trim_blanks;
use crate::text::trimmed;

verus! {

/// Credentials collected for a login: account name, password, and the
/// one-time code when the account uses one.
#[derive(Debug)]
pub struct LoginCredentials {
    pub username: String,
    pub password: String,
    pub otp: Option<String>,
}

/// Builds credentials from what the prompts collected.  The one-time code
/// is stripped of surrounding blanks; when nothing remains it counts as
/// not given.
pub fn new_credentials(username: String, password: String, otp: String) -> (r: LoginCredentials)
    ensures
        r.username == username,
        r.password == password,
        trimmed(otp@).len() == 0 ==> r.otp is None,
        trimmed(otp@).len() > 0 ==> (r.otp matches Option::Some(t) && t@ == trimmed(otp@)),
{
    let t = trim_blanks(otp.as_str());
    let otp = if t.unicode_len() == 0 {
        Option::None
    } else {
        Option::Some(t)
    };
    LoginCredentials { username, password, otp }
}

impl LoginCredentials {
    /// The parameters of the authentication call these credentials make:
    /// the login method, the session format, account and password, and the
    /// one-time code when given.
    pub fn login_parameters(&self) -> (r: Vec<QueryParam>)
        ensures
            params_model(r@) =~= seq![
                QueryParamModel { key: "method"@, value: "login"@ },
                QueryParamModel { key: "format"@, value: "sid"@ },
                QueryParamModel { key: "account"@, value: self.username@ },
                QueryParamModel { key: "passwd"@, value: self.password@ },
            ] + match crate::schema::opt_string_view(self.otp) {
                Option::Some(o) => seq![QueryParamModel { key: "otp_code"@, value: o }],
                Option::None => Seq::<QueryParamModel>::empty(),
            },
    {
        let mut r: Vec<QueryParam> = Vec::new();
        r.push(QueryParam { key: "method".to_owned(), value: "login".to_owned() });
        r.push(QueryParam { key: "format".to_owned(), value: "sid".to_owned() });
        r.push(QueryParam { key: "account".to_owned(), value: self.username.clone() });
        r.push(QueryParam { key: "passwd".to_owned(), value: self.password.clone() });
        match &self.otp {
            Option::Some(o) => {
                r.push(QueryParam { key: "otp_code".to_owned(), value: o.clone() });
            },
            Option::None => {},
        }
        r
    }
}

} // verus!
