use vstd::prelude::*;

verus! {

/// Configuration consumed by the token codec and the lockout policy: one
/// signing secret per token kind and three durations in minutes. It is
/// built once at startup and passed in explicitly; business logic never
/// reads ambient process state.
pub struct AuthConfig {
    /// Signing secret for access tokens.
    pub jwt_secret: String,
    /// Signing secret for refresh tokens.
    pub jwt_secret_x: String,
    /// Access-token lifetime, in minutes.
    pub access_token_exp_duration: u64,
    /// Refresh-token lifetime, in minutes.
    pub refresh_token_exp_duration: u64,
    /// Length of the login lockout window, in minutes.
    pub account_lock_duration: u64,
}

/// The configuration as mathematical values.
pub struct AuthConfigV {
    pub jwt_secret: Seq<char>,
    pub jwt_secret_x: Seq<char>,
    pub access_token_exp_duration: u64,
    pub refresh_token_exp_duration: u64,
    pub account_lock_duration: u64,
}

impl View for AuthConfig {
    type V = AuthConfigV;

    open spec fn view(&self) -> AuthConfigV {
        AuthConfigV {
            jwt_secret: self.jwt_secret@,
            jwt_secret_x: self.jwt_secret_x@,
            access_token_exp_duration: self.access_token_exp_duration,
            refresh_token_exp_duration: self.refresh_token_exp_duration,
            account_lock_duration: self.account_lock_duration,
        }
    }
}

impl AuthConfigV {
    /// Every configured duration, converted to seconds, fits in a `u64`.
    pub open spec fn wf(self) -> bool {
        &&& self.access_token_exp_duration * 60 <= u64::MAX
        &&& self.refresh_token_exp_duration * 60 <= u64::MAX
        &&& self.account_lock_duration * 60 <= u64::MAX
    }

    /// The signing secret selected by a token kind.
    pub open spec fn secret(self, refresh: bool) -> Seq<char> {
        if refresh {
            self.jwt_secret_x
        } else {
            self.jwt_secret
        }
    }

    /// The configured token lifetime for a kind, in seconds.
    pub open spec fn duration_secs(self, refresh: bool) -> int {
        if refresh {
            self.refresh_token_exp_duration * 60
        } else {
            self.access_token_exp_duration * 60
        }
    }

    /// The lockout window, in seconds.
    pub open spec fn lock_secs(self) -> int {
        self.account_lock_duration * 60
    }
}

impl AuthConfig {
    /// Builds a configuration, rejecting durations so large that converting
    /// them to seconds would overflow a `u64`.
    pub fn new(
        jwt_secret: String,
        jwt_secret_x: String,
        access_token_exp_duration: u64,
        refresh_token_exp_duration: u64,
        account_lock_duration: u64,
    ) -> (r: Option<AuthConfig>)
        ensures
            (r is Some) <==> (access_token_exp_duration <= u64::MAX / 60
                && refresh_token_exp_duration <= u64::MAX / 60
                && account_lock_duration <= u64::MAX / 60),
            r matches Some(c) ==> c@ == (AuthConfigV {
                jwt_secret: jwt_secret@,
                jwt_secret_x: jwt_secret_x@,
                access_token_exp_duration,
                refresh_token_exp_duration,
                account_lock_duration,
            }) && c@.wf(),
    {
        if access_token_exp_duration <= u64::MAX / 60 && refresh_token_exp_duration <= u64::MAX / 60
            && account_lock_duration <= u64::MAX / 60 {
            Some(
                AuthConfig {
                    jwt_secret,
                    jwt_secret_x,
                    access_token_exp_duration,
                    refresh_token_exp_duration,
                    account_lock_duration,
                },
            )
        } else {
            None
        }
    }
}

} // verus!
