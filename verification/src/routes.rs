//! The operations of the service: registration, login, the second factor,
//! logout, and the check of a presented token.

pub mod login;
pub mod logout;
pub mod signup;
pub mod verify_2fa;
pub mod verify_token;

pub use login::{
    deliver_code,
    first_factor,
    handle_no_2fa,
    issue_challenge,
    login,
    login_in_steps,
    parse_login,
    LoginRequest,
    LoginResponse,
    TwoFactorAuthResponse,
};
pub use logout::logout;
pub use signup::{
    parse_signup,
    signup,
    signup_answer,
    signup_in_steps,
    SignupRequest,
    SignupResponse,
};
pub use verify_2fa::{verify_2fa, Verify2FARequest};
pub use verify_token::{verify_token, VerifyTokenRequest};
