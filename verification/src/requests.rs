//! Request-level decisions around the core: the routing table from wire
//! message types to operations, the login and registration outcomes, the
//! wallet-overview decisions, and password hashing.
//!
//! Everything here is a function from plain values to plain values; the
//! HTTP plumbing, the store and the password database stay outside and
//! hand their answers in as arguments.

use vstd::prelude::*;

use vstd::string::StringExecFns;

use argon2::{PasswordHasher, PasswordVerifier};

use crate::fields::{count_is_positive, spec_count_positive, FieldName};
use crate::session::{spec_create, SessionManager, SESSION_TTL_SECONDS};

verus! {

/// The operation a request's message type names.
#[derive(Debug, Clone, Copy, PartialEq, Eq, Structural)]
pub enum RequestKind {
    InsertField(FieldName),
    GetField(FieldName),
    Logout,
    CardsOverview,
    AutoOverview,
    UserInfoLookup,
    LatestNews,
    Unknown,
}

/// The fixed routing table of the message handler.
pub open spec fn spec_route(s: Seq<char>) -> RequestKind {
    if s == "InsertIdenityCard"@ {
        RequestKind::InsertField(FieldName::IdentityCard)
    } else if s == "GetIdenityCard"@ {
        RequestKind::GetField(FieldName::IdentityCard)
    } else if s == "InsertDrivingLicense"@ {
        RequestKind::InsertField(FieldName::DrivingLicense)
    } else if s == "GetDrivingLicense"@ {
        RequestKind::GetField(FieldName::DrivingLicense)
    } else if s == "InsertPassport"@ {
        RequestKind::InsertField(FieldName::Passport)
    } else if s == "GetPassport"@ {
        RequestKind::GetField(FieldName::Passport)
    } else if s == "InsertVehicleRegistration"@ {
        RequestKind::InsertField(FieldName::VehicleRegistration)
    } else if s == "GetVehicleRegistration"@ {
        RequestKind::GetField(FieldName::VehicleRegistration)
    } else if s == "InsertInsuranceAuto"@ {
        RequestKind::InsertField(FieldName::InsuranceAuto)
    } else if s == "GetInsuranceAuto"@ {
        RequestKind::GetField(FieldName::InsuranceAuto)
    } else if s == "logout"@ {
        RequestKind::Logout
    } else if s == "GetWalletCards"@ {
        RequestKind::CardsOverview
    } else if s == "GetWalletAuto"@ {
        RequestKind::AutoOverview
    } else if s == "UserInfo"@ {
        RequestKind::UserInfoLookup
    } else if s == "News"@ {
        RequestKind::LatestNews
    } else {
        RequestKind::Unknown
    }
}

/// A login attempt, as the router hands it in.
pub struct LoginRequest {
    pub username: String,
    pub password: String,
}

/// A registration attempt, as the router hands it in.
pub struct RegisterRequest {
    pub username: String,
    pub password: String,
    pub email: String,
    pub phone_number: String,
}

/// The identity attached to a successful login.
pub struct UserInfo {
    pub username: String,
    pub role: String,
    pub permissions: Vec<String>,
    pub login_time: String,
}

/// What a login attempt answers.
pub struct LoginResponse {
    pub success: bool,
    pub token: Option<String>,
    pub expires_in: i64,
    pub user_info: Option<UserInfo>,
    pub message: String,
}

/// The message-dispatch half of the request handler.
pub struct DataRequestHandler {}

impl DataRequestHandler {
    /// Resolves a wire message type against the fixed routing table.
    pub fn route_message(message_type: &str) -> (r: RequestKind)
        ensures
            r == spec_route(message_type@),
    {
        let s = message_type.to_owned();
        if s == "InsertIdenityCard".to_owned() {
            RequestKind::InsertField(FieldName::IdentityCard)
        } else if s == "GetIdenityCard".to_owned() {
            RequestKind::GetField(FieldName::IdentityCard)
        } else if s == "InsertDrivingLicense".to_owned() {
            RequestKind::InsertField(FieldName::DrivingLicense)
        } else if s == "GetDrivingLicense".to_owned() {
            RequestKind::GetField(FieldName::DrivingLicense)
        } else if s == "InsertPassport".to_owned() {
            RequestKind::InsertField(FieldName::Passport)
        } else if s == "GetPassport".to_owned() {
            RequestKind::GetField(FieldName::Passport)
        } else if s == "InsertVehicleRegistration".to_owned() {
            RequestKind::InsertField(FieldName::VehicleRegistration)
        } else if s == "GetVehicleRegistration".to_owned() {
            RequestKind::GetField(FieldName::VehicleRegistration)
        } else if s == "InsertInsuranceAuto".to_owned() {
            RequestKind::InsertField(FieldName::InsuranceAuto)
        } else if s == "GetInsuranceAuto".to_owned() {
            RequestKind::GetField(FieldName::InsuranceAuto)
        } else if s == "logout".to_owned() {
            RequestKind::Logout
        } else if s == "GetWalletCards".to_owned() {
            RequestKind::CardsOverview
        } else if s == "GetWalletAuto".to_owned() {
            RequestKind::AutoOverview
        } else if s == "UserInfo".to_owned() {
            RequestKind::UserInfoLookup
        } else if s == "News".to_owned() {
            RequestKind::LatestNews
        } else {
            RequestKind::Unknown
        }
    }
}

/// Builder of the structured failure outcome: never successful, carries
/// the human-readable message, and no partial data travels with it.
pub struct ResponseHandler {}

impl ResponseHandler {
    /// Wraps an error message as a failure outcome.
    pub fn standard_error(err: String) -> (r: (bool, String))
        ensures
            !r.0,
            r.1 == err,
    {
        (false, err)
    }
}

/// The login and registration decisions.
pub struct AuthRequestHandler {}

impl AuthRequestHandler {
    /// Decision half of the login flow. The caller has already checked
    /// the credentials; a success issues a session whose token travels
    /// back in the response, a failure answers an unauthenticated
    /// outcome and leaves the registry untouched.
    pub fn login_outcome(
        sessions: &mut SessionManager,
        username: &str,
        authenticated: bool,
        now: u64,
    ) -> (r: LoginResponse)
        requires
            old(sessions).wf(),
            now + SESSION_TTL_SECONDS <= u64::MAX,
        ensures
            final(sessions).wf(),
            !authenticated ==> final(sessions)@ == old(sessions)@ && !r.success && r.token
                is None && r.expires_in == 0 && r.user_info is None,
            authenticated ==> r.success && r.expires_in == 24 * 3600 && (r.token matches Some(t)
                && final(sessions)@ == spec_create(old(sessions)@, t@, username@, now)) && (
            r.user_info matches Some(u) && u.username@ == username@ && u.role@ == "user"@
                && u.permissions@.len() == 3 && u.permissions@[0]@ == "read"@ && u.permissions@[1]@
                == "write"@ && u.permissions@[2]@ == "admin"@),
    {
        if authenticated {
            let token = sessions.create_session(username, now);
            let mut permissions: Vec<String> = Vec::new();
            permissions.push("read".to_owned());
            permissions.push("write".to_owned());
            permissions.push("admin".to_owned());
            let user_info = UserInfo {
                username: username.to_owned(),
                role: "user".to_owned(),
                permissions,
                login_time: String::new(),
            };
            LoginResponse {
                success: true,
                token: Some(token),
                expires_in: 24 * 3600,
                user_info: Some(user_info),
                message: "login accepted".to_owned(),
            }
        } else {
            LoginResponse {
                success: false,
                token: None,
                expires_in: 0,
                user_info: None,
                message: "invalid credentials".to_owned(),
            }
        }
    }

    /// Decision half of the registration flow: a used email wins over
    /// everything, then a hashing failure; only then may the caller
    /// store the new user with the produced password hash.
    pub fn register_plan(email_used: bool, hashed: Option<String>) -> (r: RegisterOutcome)
        ensures
            email_used ==> r == RegisterOutcome::EmailUsed,
            !email_used && hashed is None ==> r == RegisterOutcome::HashingFailed,
            !email_used ==> (hashed matches Some(h) ==> r == (RegisterOutcome::StoreUser {
                password_hash: h,
            })),
    {
        if email_used {
            RegisterOutcome::EmailUsed
        } else {
            match hashed {
                None => RegisterOutcome::HashingFailed,
                Some(h) => RegisterOutcome::StoreUser { password_hash: h },
            }
        }
    }
}

/// What a registration attempt resolves to.
pub enum RegisterOutcome {
    /// The email is already taken: reject.
    EmailUsed,
    /// The password could not be hashed: reject.
    HashingFailed,
    /// Store the new user with this password hash.
    StoreUser { password_hash: String },
}

/// Whether argon2 verification of this password against this PHC hash
/// string succeeds; a function of the two texts, since the hash string
/// carries its own salt and parameters. Stated only through the trusted
/// items below.
pub uninterp spec fn argon2_verifies(password: Seq<char>, hash: Seq<char>) -> bool;

/// Whether a text parses as a PHC hash string (`PasswordHash::new`
/// accepts it); a function of the text alone. Stated only through the
/// trusted items below.
pub uninterp spec fn phc_parses(hash: Seq<char>) -> bool;

/// A password paired with the stored hash it is to be checked against.
pub struct PasswordHashManager {
    password: String,
    password_hash: String,
}

impl PasswordHashManager {
    /// The password under check, visible to contracts only abstractly.
    pub closed spec fn spec_password(&self) -> Seq<char> {
        self.password@
    }

    /// The stored hash under check, visible to contracts only abstractly.
    pub closed spec fn spec_hash(&self) -> Seq<char> {
        self.password_hash@
    }

    /// Pairs a password with a stored hash.
    pub fn new(password: String, password_hash: String) -> (r: Self)
        ensures
            r.spec_password() == password@,
            r.spec_hash() == password_hash@,
    {
        PasswordHashManager { password, password_hash }
    }

    /// Relies on argon2's `PasswordHash` parsing and
    /// `Argon2::verify_password`: verification is a function of the
    /// password and the PHC hash string, and the error case is exactly
    /// an unparseable hash string.
    #[verifier::external_body]
    pub fn check(&self) -> (r: Result<bool, String>)
        ensures
            r matches Ok(b) ==> phc_parses(self.spec_hash()) && b == argon2_verifies(
                self.spec_password(),
                self.spec_hash(),
            ),
            r is Err ==> !phc_parses(self.spec_hash()),
    {
        let parsed_hash = argon2::password_hash::PasswordHash::new(&self.password_hash).map_err(
            |e| e.to_string(),
        )?;
        let argon2 = argon2::Argon2::default();
        Ok(argon2.verify_password(self.password.as_bytes(), &parsed_hash).is_ok())
    }

    /// Relies on argon2's `Argon2::hash_password` with a fresh random
    /// salt: the produced text is a well-formed PHC string that verifies
    /// against the password it was made from.
    #[verifier::external_body]
    pub fn get_hashed(password: String) -> (r: Result<String, String>)
        ensures
            r matches Ok(h) ==> phc_parses(h@) && argon2_verifies(password@, h@),
    {
        let salt = argon2::password_hash::SaltString::generate(&mut rand_core::OsRng);
        let argon2 = argon2::Argon2::default();
        let password_hash = argon2.hash_password(password.as_bytes(), &salt).map_err(
            |e| e.to_string(),
        )?.to_string();
        Ok(password_hash)
    }
}

/// The wallet-overview decisions: which kinds are checked, and what the
/// store's count answer means.
pub struct PersonalDataManager {}

impl PersonalDataManager {
    /// The card kinds the wallet overview checks, in order.
    pub fn card_fields() -> (r: Vec<FieldName>)
        ensures
            r@ == seq![FieldName::IdentityCard, FieldName::DrivingLicense, FieldName::Passport],
    {
        let mut v: Vec<FieldName> = Vec::new();
        v.push(FieldName::IdentityCard);
        v.push(FieldName::DrivingLicense);
        v.push(FieldName::Passport);
        proof {
            assert(v@ =~= seq![
                FieldName::IdentityCard,
                FieldName::DrivingLicense,
                FieldName::Passport,
            ]);
        }
        v
    }

    /// The vehicle kinds the wallet overview checks, in order.
    pub fn auto_fields() -> (r: Vec<FieldName>)
        ensures
            r@ == seq![FieldName::VehicleRegistration, FieldName::InsuranceAuto],
    {
        let mut v: Vec<FieldName> = Vec::new();
        v.push(FieldName::VehicleRegistration);
        v.push(FieldName::InsuranceAuto);
        proof {
            assert(v@ =~= seq![FieldName::VehicleRegistration, FieldName::InsuranceAuto]);
        }
        v
    }

    /// Whether one field shows in the overview: only when the store
    /// answered, and the answer is a positive count. A store failure
    /// counts the field as absent.
    pub fn field_present(count: Option<&String>) -> (r: bool)
        ensures
            match count {
                Some(s) => r == spec_count_positive(s@),
                None => !r,
            },
    {
        match count {
            Some(s) => count_is_positive(s.as_str()),
            None => false,
        }
    }
}

} // verus!
