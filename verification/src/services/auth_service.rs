//! The rules of accounts: what an invitation creates, how a first password
//! is set, when a login is accepted, and how the first administrator comes
//! about.
//!
//! Passwords are hashed and checked by the bcrypt crate. Looking accounts up
//! and storing them, and signing the claims of a login into a token, are
//! left to the caller.

use crate::handlers::auth_handler::{token_expiry, TOKEN_LIFETIME_SECONDS};
use crate::models::auth::{Claims, InviteRequest};
use crate::models::profile::UserProfile;
use crate::models::user::User;
use crate::services::room_service::is_hyphenated_uuid;
use crate::text::opt_text;
use vstd::prelude::*;

verus! {

/// The error type of the bcrypt crate.
#[verifier::external_type_specification]
#[verifier::external_body]
pub struct ExBcryptError(bcrypt::BcryptError);

/// The work factor with which passwords of invited accounts are hashed.
pub const PASSWORD_COST: u32 = 12;

/// The work factor with which the password of the first administrator is
/// hashed.
pub const INITIAL_ADMIN_PASSWORD_COST: u32 = 10;

/// The number of characters of a setup token.
pub const SETUP_TOKEN_LENGTH: usize = 32;

/// Whether `password` is the password behind the bcrypt hash `hash`;
/// nothing where `hash` is no bcrypt hash.
pub uninterp spec fn password_check(password: Seq<char>, hash: Seq<char>) -> Option<bool>;

/// Whether `hashed`, if it is a hash at all, is one that `password` passes.
pub open spec fn is_hash_of(
    password: Seq<char>,
    hashed: Result<String, bcrypt::BcryptError>,
) -> bool {
    hashed matches Ok(hash) ==> password_check(password, hash@) == Some(true)
}

/// `bcrypt::hash`: the bcrypt hash of `password` under a fresh random salt,
/// one that `bcrypt::verify` accepts for this password. It fails for a work
/// factor outside 4 to 31 and where the system yields no randomness.
#[verifier::external_body]
pub(crate) fn hash_password(password: &str, cost: u32) -> (hashed: Result<
    String,
    bcrypt::BcryptError,
>)
    ensures
        is_hash_of(password@, hashed),
{
    bcrypt::hash(password, cost)
}

/// What a check of a password has yielded, errors set aside.
pub open spec fn check_outcome(checked: Result<bool, bcrypt::BcryptError>) -> Option<bool> {
    match checked {
        Ok(matches) => Some(matches),
        Err(_) => None,
    }
}

/// `bcrypt::verify`: whether `password` hashes to `hash` under the salt and
/// work factor that `hash` names. It fails where `hash` is no bcrypt hash.
#[verifier::external_body]
pub(crate) fn verify_password(password: &str, hash: &str) -> (checked: Result<
    bool,
    bcrypt::BcryptError,
>)
    ensures
        check_outcome(checked) == password_check(password@, hash@),
{
    bcrypt::verify(password, hash)
}

/// `Uuid::now_v7` of the uuid crate, written out by its `Display`: a UUID
/// made of the current time and random bits, in hyphenated lower-case form.
#[verifier::external_body]
pub(crate) fn time_ordered_uuid() -> (text: String)
    ensures
        is_hyphenated_uuid(text@),
{
    uuid::Uuid::now_v7().to_string()
}

/// Whether `c` is a letter of the English alphabet or a digit.
pub open spec fn is_alphanumeric(c: char) -> bool {
    ('A' <= c && c <= 'Z') || ('a' <= c && c <= 'z') || ('0' <= c && c <= '9')
}

/// Whether `text` is made of `len` letters and digits.
pub open spec fn is_alphanumeric_text(text: Seq<char>, len: int) -> bool {
    &&& text.len() == len
    &&& forall|i: int| 0 <= i < text.len() ==> is_alphanumeric(#[trigger] text[i])
}

/// `Rng::sample_iter` of the rand crate with its `Alphanumeric`
/// distribution, on the thread's generator: `len` random letters and
/// digits.
#[verifier::external_body]
pub(crate) fn random_alphanumeric(len: usize) -> (text: String)
    ensures
        is_alphanumeric_text(text@, len as int),
{
    rand::Rng::sample_iter(rand::thread_rng(), &rand::distributions::Alphanumeric)
        .take(len)
        .map(char::from)
        .collect()
}

/// A fresh account id.
pub fn default_user_id() -> (id: String)
    ensures
        is_hyphenated_uuid(id@),
{
    time_ordered_uuid()
}

/// Why a request on accounts fails.
#[derive(Debug, Clone, Copy, PartialEq, Eq)]
pub enum AuthError {
    /// An account with the e-mail address exists already.
    UserExists,
    /// No account waits behind the setup token.
    InvalidToken,
    /// No account has the e-mail address, or the password is wrong.
    InvalidCredentials,
    /// The account has no password yet.
    NotActivated,
    /// The account is active but holds no password.
    NoPassword,
    /// The account has not been stored, so it has no id to log in under.
    NotStored,
    /// The password could not be hashed, or the stored hash could not be
    /// read.
    Hashing,
    /// The expiry of the token cannot be written down.
    Expiry,
}

/// The text sent to the caller for an error.
pub open spec fn auth_error_text(error: AuthError) -> Seq<char> {
    match error {
        AuthError::UserExists => "User already exists"@,
        AuthError::InvalidToken => "Invalid or expired token"@,
        AuthError::InvalidCredentials => "Invalid email or password"@,
        AuthError::NotActivated => "Account not activated. Please use the link sent to your email."@,
        AuthError::NoPassword => "User has no password set"@,
        AuthError::NotStored => "User not found"@,
        AuthError::Hashing => "Password hashing failed"@,
        AuthError::Expiry => "Token expiry out of range"@,
    }
}

impl AuthError {
    /// The text sent to the caller for this error.
    pub fn message(&self) -> (text: String)
        ensures
            text@ == auth_error_text(*self),
    {
        match self {
            AuthError::UserExists => "User already exists".to_string(),
            AuthError::InvalidToken => "Invalid or expired token".to_string(),
            AuthError::InvalidCredentials => "Invalid email or password".to_string(),
            AuthError::NotActivated => "Account not activated. Please use the link sent to your email.".to_string(),
            AuthError::NoPassword => "User has no password set".to_string(),
            AuthError::NotStored => "User not found".to_string(),
            AuthError::Hashing => "Password hashing failed".to_string(),
            AuthError::Expiry => "Token expiry out of range".to_string(),
        }
    }
}

/// What an invitation creates: the account, its profile, and what the
/// inviter is handed, the setup token of the account or the word `ACTV`
/// for an account that is active at once.
#[derive(Debug, Clone, PartialEq)]
pub struct Invitation {
    pub user: User,
    pub profile: UserProfile,
    pub token: String,
}

/// Whether an invitation comes with a password: one that is not empty.
pub open spec fn password_given(payload: InviteRequest) -> bool {
    payload.password matches Some(password) && password@.len() > 0
}

/// Whether `invitation` is what `payload` asks for at `now`.
///
/// The account and its profile carry what the invitation says, under fresh
/// ids, with the role `user` where none is named. With a password the
/// account is active at once and holds the hash of the password; without
/// one it waits behind a fresh setup token.
pub open spec fn invitation_for(payload: InviteRequest, now: int, invitation: Invitation) -> bool {
    let user = invitation.user;
    let profile = invitation.profile;
    &&& user.id is None
    &&& is_hyphenated_uuid(user.user_id@)
    &&& user.email@ == payload.email@
    &&& user.role@ == match payload.role {
        Some(role) => role@,
        None => "user"@,
    }
    &&& user.created_at == now
    &&& is_hyphenated_uuid(profile.profile_id@)
    &&& profile.user_id@ == user.user_id@
    &&& profile.first_name == payload.first_name
    &&& profile.last_name == payload.last_name
    &&& profile.nickname == payload.nickname
    &&& profile.position == payload.position
    &&& if password_given(payload) {
        &&& user.is_active
        &&& user.password_hash matches Some(hash)
        &&& password_check(payload.password->0@, hash@) == Some(true)
        &&& user.setup_token is None
        &&& invitation.token@ == "ACTV"@
    } else {
        &&& !user.is_active
        &&& user.password_hash is None
        &&& opt_text(user.setup_token) == Some(invitation.token@)
        &&& is_alphanumeric_text(invitation.token@, SETUP_TOKEN_LENGTH as int)
    }
}

/// Whether `user` is `before` after `password` was set as its first
/// password: active, holding a hash that the password passes, no longer
/// waiting behind a setup token, otherwise as it was.
pub open spec fn password_was_set(before: User, password: Seq<char>, user: User) -> bool {
    &&& user.is_active
    &&& user.password_hash matches Some(hash)
    &&& password_check(password, hash@) == Some(true)
    &&& user.setup_token is None
    &&& user.id == before.id
    &&& user.user_id == before.user_id
    &&& user.email == before.email
    &&& user.role == before.role
    &&& user.created_at == before.created_at
}

/// What a login attempt yields, by what is known before the token is
/// signed: the account found under the e-mail address, the password
/// offered, and the time.
pub open spec fn login_outcome(user: Option<User>, password: Seq<char>, now_secs: int) -> Result<
    (Seq<char>, Seq<char>, int),
    AuthError,
> {
    match user {
        None => Err(AuthError::InvalidCredentials),
        Some(u) => if !u.is_active {
            Err(AuthError::NotActivated)
        } else {
            match u.password_hash {
                None => Err(AuthError::NoPassword),
                Some(hash) => match password_check(password, hash@) {
                    None => Err(AuthError::Hashing),
                    Some(false) => Err(AuthError::InvalidCredentials),
                    Some(true) => match u.id {
                        None => Err(AuthError::NotStored),
                        Some(id) => if 0 <= now_secs + TOKEN_LIFETIME_SECONDS <= usize::MAX {
                            Ok((id@, u.role@, now_secs + TOKEN_LIFETIME_SECONDS))
                        } else {
                            Err(AuthError::Expiry)
                        },
                    },
                },
            }
        },
    }
}

/// What claims stand for: the account, its role, and the expiry.
pub open spec fn claims_view(claims: Claims) -> (Seq<char>, Seq<char>, int) {
    (claims.sub@, claims.role@, claims.exp as int)
}

/// The rules of accounts.
pub struct AuthService;

impl AuthService {
    /// Creates what an invitation asks for. `email_taken` says whether an
    /// account with the e-mail address exists; then the invitation is
    /// refused. An invitation without a password always succeeds otherwise;
    /// one with a password fails only if the password cannot be hashed.
    pub fn invite(email_taken: bool, payload: InviteRequest, now: i64) -> (result: Result<
        Invitation,
        AuthError,
    >)
        ensures
            email_taken <==> result == Err::<Invitation, AuthError>(AuthError::UserExists),
            result matches Ok(invitation) ==> invitation_for(payload, now as int, invitation),
            result is Err ==> email_taken || (password_given(payload) && result
                == Err::<Invitation, AuthError>(AuthError::Hashing)),
    {
        if email_taken {
            return Err(AuthError::UserExists);
        }
        let mut setup_token: Option<String> = None;
        let mut password_hash: Option<String> = None;
        let mut is_active = false;
        match &payload.password {
            Some(password) => {
                if password.as_str().unicode_len() > 0 {
                    match hash_password(password.as_str(), PASSWORD_COST) {
                        Ok(hashed) => {
                            password_hash = Some(hashed);
                            is_active = true;
                        },
                        Err(_) => {
                            return Err(AuthError::Hashing);
                        },
                    }
                }
            },
            None => {},
        }
        let token = if is_active {
            "ACTV".to_string()
        } else {
            let fresh = random_alphanumeric(SETUP_TOKEN_LENGTH);
            setup_token = Some(fresh.clone());
            fresh
        };
        let role = match &payload.role {
            Some(role) => role.clone(),
            None => "user".to_string(),
        };
        let user_id = time_ordered_uuid();
        let user = User {
            id: None,
            user_id: user_id.clone(),
            email: payload.email.clone(),
            role,
            password_hash,
            created_at: now,
            setup_token,
            is_active,
        };
        let profile = UserProfile {
            profile_id: time_ordered_uuid(),
            user_id,
            first_name: payload.first_name,
            last_name: payload.last_name,
            nickname: payload.nickname,
            position: payload.position,
        };
        Ok(Invitation { user, profile, token })
    }

    /// The e-mail address of the account that waits behind a setup token.
    /// `user` is the account found under the token, if any.
    pub fn get_setup_info(user: Option<&User>) -> (result: Result<String, AuthError>)
        ensures
            match user {
                Some(u) => result matches Ok(email) && email@ == u.email@,
                None => result == Err::<String, AuthError>(AuthError::InvalidToken),
            },
    {
        match user {
            Some(u) => Ok(u.email.clone()),
            None => Err(AuthError::InvalidToken),
        }
    }

    /// Sets the first password of the account that waits behind a setup
    /// token. `user` is the account found under the token, if any. With an
    /// account, the call fails only if the password cannot be hashed.
    pub fn setup_password(user: Option<User>, password: &str) -> (result: Result<User, AuthError>)
        ensures
            user is None <==> result == Err::<User, AuthError>(AuthError::InvalidToken),
            result is Err ==> result == Err::<User, AuthError>(AuthError::InvalidToken) || result
                == Err::<User, AuthError>(AuthError::Hashing),
            result matches Ok(updated) ==> user matches Some(before) && password_was_set(
                before,
                password@,
                updated,
            ),
    {
        match user {
            None => Err(AuthError::InvalidToken),
            Some(mut u) => match hash_password(password, PASSWORD_COST) {
                Ok(hashed) => {
                    u.password_hash = Some(hashed);
                    u.setup_token = None;
                    u.is_active = true;
                    Ok(u)
                },
                Err(_) => Err(AuthError::Hashing),
            },
        }
    }

    /// Checks a login. `user` is the account found under the e-mail
    /// address, if any. On success the claims to sign are returned: the
    /// account's id, its role, and an expiry `TOKEN_LIFETIME_SECONDS` after
    /// `now_secs`.
    pub fn login(user: Option<&User>, password: &str, now_secs: i64) -> (result: Result<
        Claims,
        AuthError,
    >)
        ensures
            match result {
                Ok(claims) => Ok::<(Seq<char>, Seq<char>, int), AuthError>(claims_view(claims)),
                Err(error) => Err::<(Seq<char>, Seq<char>, int), AuthError>(error),
            } == login_outcome(
                match user {
                    Some(u) => Some(*u),
                    None => None,
                },
                password@,
                now_secs as int,
            ),
    {
        match user {
            None => Err(AuthError::InvalidCredentials),
            Some(u) => if !u.is_active {
                Err(AuthError::NotActivated)
            } else {
                Self::login_verdict(u, verify_password_of(u, password), now_secs)
            },
        }
    }

    /// Decides a login of the account `user`, given the outcome `checked` of
    /// checking the password offered against the account's hash: nothing
    /// where the account holds no hash, otherwise what the check said, if
    /// it could be made.
    pub fn login_verdict(user: &User, checked: Option<Option<bool>>, now_secs: i64) -> (result:
        Result<Claims, AuthError>)
        ensures
            match result {
                Ok(claims) => Ok::<(Seq<char>, Seq<char>, int), AuthError>(claims_view(claims)),
                Err(error) => Err::<(Seq<char>, Seq<char>, int), AuthError>(error),
            } == login_verdict_for(*user, checked, now_secs as int),
    {
        if !user.is_active {
            return Err(AuthError::NotActivated);
        }
        match checked {
            None => Err(AuthError::NoPassword),
            Some(None) => Err(AuthError::Hashing),
            Some(Some(false)) => Err(AuthError::InvalidCredentials),
            Some(Some(true)) => match &user.id {
                None => Err(AuthError::NotStored),
                Some(id) => match token_expiry(now_secs) {
                    Some(exp) => Ok(Claims { sub: id.clone(), role: user.role.clone(), exp }),
                    None => Err(AuthError::Expiry),
                },
            },
        }
    }

    /// The first administrator, made when there is no account at all:
    /// active, with the role `admin`, under the e-mail address, password and
    /// nickname configured, or `admin@example.com`, `admin1234` and `Admin`
    /// where none is. With an account in place nothing is made.
    pub fn check_and_create_initial_admin(
        user_count: u64,
        email: Option<String>,
        password: Option<String>,
        nickname: Option<String>,
        now: i64,
    ) -> (result: Result<Option<(User, UserProfile)>, AuthError>)
        ensures
            user_count != 0 ==> result == Ok::<Option<(User, UserProfile)>, AuthError>(None),
            user_count == 0 ==> result == Err::<Option<(User, UserProfile)>, AuthError>(
                AuthError::Hashing,
            ) || (result matches Ok(Some(made)) && initial_admin_for(
                email,
                password,
                nickname,
                now as int,
                made,
            )),
    {
        if user_count != 0 {
            return Ok(None);
        }
        let password = match password {
            Some(p) => p,
            None => "admin1234".to_string(),
        };
        match hash_password(password.as_str(), INITIAL_ADMIN_PASSWORD_COST) {
            Err(_) => Err(AuthError::Hashing),
            Ok(hashed) => {
                let user_id = time_ordered_uuid();
                let user = User {
                    id: None,
                    user_id: user_id.clone(),
                    email: match email {
                        Some(e) => e,
                        None => "admin@example.com".to_string(),
                    },
                    role: "admin".to_string(),
                    password_hash: Some(hashed),
                    created_at: now,
                    setup_token: None,
                    is_active: true,
                };
                let profile = UserProfile {
                    profile_id: time_ordered_uuid(),
                    user_id,
                    first_name: None,
                    last_name: None,
                    nickname: Some(
                        match nickname {
                            Some(n) => n,
                            None => "Admin".to_string(),
                        },
                    ),
                    position: Some("System Administrator".to_string()),
                };
                Ok(Some((user, profile)))
            },
        }
    }
}

/// Whether `made` is the first administrator with its profile.
pub open spec fn initial_admin_for(
    email: Option<String>,
    password: Option<String>,
    nickname: Option<String>,
    now: int,
    made: (User, UserProfile),
) -> bool {
    let user = made.0;
    let profile = made.1;
    &&& user.id is None
    &&& is_hyphenated_uuid(user.user_id@)
    &&& user.email@ == match email {
        Some(e) => e@,
        None => "admin@example.com"@,
    }
    &&& user.role@ == "admin"@
    &&& user.password_hash matches Some(hash)
    &&& password_check(
        match password {
            Some(p) => p@,
            None => "admin1234"@,
        },
        hash@,
    ) == Some(true)
    &&& user.created_at == now
    &&& user.setup_token is None
    &&& user.is_active
    &&& is_hyphenated_uuid(profile.profile_id@)
    &&& profile.user_id@ == user.user_id@
    &&& profile.first_name is None
    &&& profile.last_name is None
    &&& opt_text(profile.nickname) == Some(
        match nickname {
            Some(n) => n@,
            None => "Admin"@,
        },
    )
    &&& opt_text(profile.position) == Some("System Administrator"@)
}

/// What a login attempt on the account `user` yields, given the outcome
/// `checked` of checking the password: nothing where the account holds no
/// hash, otherwise what the check said, if it could be made.
pub open spec fn login_verdict_for(user: User, checked: Option<Option<bool>>, now_secs: int) -> Result<
    (Seq<char>, Seq<char>, int),
    AuthError,
> {
    if !user.is_active {
        Err(AuthError::NotActivated)
    } else {
        match checked {
            None => Err(AuthError::NoPassword),
            Some(None) => Err(AuthError::Hashing),
            Some(Some(false)) => Err(AuthError::InvalidCredentials),
            Some(Some(true)) => match user.id {
                None => Err(AuthError::NotStored),
                Some(id) => if 0 <= now_secs + TOKEN_LIFETIME_SECONDS <= usize::MAX {
                    Ok((id@, user.role@, now_secs + TOKEN_LIFETIME_SECONDS))
                } else {
                    Err(AuthError::Expiry)
                },
            },
        }
    }
}

/// Checks `password` against the hash of `user`, if the account has one.
fn verify_password_of(user: &User, password: &str) -> (checked: Option<Option<bool>>)
    ensures
        checked == match user.password_hash {
            Some(hash) => Some(password_check(password@, hash@)),
            None => None,
        },
{
    match &user.password_hash {
        Some(hash) => match verify_password(password, hash.as_str()) {
            Ok(matches) => Some(Some(matches)),
            Err(_) => Some(None),
        },
        None => None,
    }
}

/// An account that has set its first password can log in with it: once
/// persistence has stored the account, a login with that password yields
/// claims for the account, unless the expiry cannot be written down.
pub proof fn lemma_login_after_setup(before: User, password: Seq<char>, user: User, now_secs: int)
    requires
        password_was_set(before, password, user),
        user.id is Some,
        0 <= now_secs + TOKEN_LIFETIME_SECONDS <= usize::MAX,
    ensures
        login_outcome(Some(user), password, now_secs) == Ok::<
            (Seq<char>, Seq<char>, int),
            AuthError,
        >((user.id->0@, user.role@, now_secs + TOKEN_LIFETIME_SECONDS)),
{
}

} // verus!
