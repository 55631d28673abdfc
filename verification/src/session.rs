//! The authenticated session that gates every remote operation, and the
//! handling of authentication outcomes.

use vstd::prelude::*;
use crate::errors::AuthError;
use crate::errors::FlowError;

verus! {

/// An authenticated identity bound to one account: a pair of opaque
/// session secrets. Immutable once created and used read-only by all
/// subsequent calls; every login variant (credential file, QR, SMS, web
/// import) converges on this one type, and downstream components are
/// agnostic to which variant produced it.
#[derive(Debug)]
pub struct Session {
    pub sess_data: String,
    pub token: String,
}

impl Session {
    /// Wrap an externally obtained web cookie pair into a session,
    /// without a network round trip.
    pub fn from_web_cookies(sess_data: String, bili_jct: String) -> (s: Session)
        ensures
            s.sess_data == sess_data,
            s.token == bili_jct,
    {
        Session { sess_data, token: bili_jct }
    }

    /// Wrap an externally obtained QR-derived web session pair into a
    /// session, without a network round trip.
    pub fn from_web_qrcode(sess_data: String, dede_user_id: String) -> (s: Session)
        ensures
            s.sess_data == sess_data,
            s.token == dede_user_id,
    {
        Session { sess_data, token: dede_user_id }
    }
}

/// The status the platform reports while a QR challenge is pending.
pub const QR_NOT_SCANNED_STATUS: i64 = 86039;

/// The status the platform reports once a QR challenge has expired.
pub const QR_EXPIRED_STATUS: i64 = 86038;

/// Classify the platform's answer to one poll of a QR challenge. Status
/// zero means the scan was confirmed; a pending challenge and an
/// expired one keep their own distinguishable flavours, never a generic
/// failure; any other status is a rejected credential.
pub fn qr_poll_outcome(code: i64) -> (r: Result<(), AuthError>)
    ensures
        r is Ok <==> code == 0,
        code == QR_NOT_SCANNED_STATUS ==> r == Err::<(), AuthError>(AuthError::NotScanned),
        code == QR_EXPIRED_STATUS ==> r == Err::<(), AuthError>(AuthError::Expired),
        (code != 0 && code != QR_NOT_SCANNED_STATUS && code != QR_EXPIRED_STATUS) ==> r == Err::<
            (),
            AuthError,
        >(AuthError::InvalidCredential),
{
    if code == 0 {
        Ok(())
    } else if code == QR_NOT_SCANNED_STATUS {
        Err(AuthError::NotScanned)
    } else if code == QR_EXPIRED_STATUS {
        Err(AuthError::Expired)
    } else {
        Err(AuthError::InvalidCredential)
    }
}

/// Classify the platform's answer to a submitted SMS verification code:
/// zero accepts it, anything else rejects the code.
pub fn sms_code_outcome(code: i64) -> (r: Result<(), AuthError>)
    ensures
        r is Ok <==> code == 0,
        code != 0 ==> r == Err::<(), AuthError>(AuthError::InvalidCode),
{
    if code == 0 {
        Ok(())
    } else {
        Err(AuthError::InvalidCode)
    }
}

/// Tag the outcome of a credential-file login with the file it
/// concerned. A success passes through untouched; a failure keeps its
/// exact flavour — the I/O failure (a configuration problem) stays
/// distinguishable from a rejected credential (needs re-login) — and
/// gains the path as context.
pub fn auth_outcome_with_context(result: Result<Session, AuthError>, cookie_file: String) -> (r:
    Result<Session, FlowError>)
    ensures
        (match result {
            Ok(s) => r == Ok::<Session, FlowError>(s),
            Err(e) => r == Err::<Session, FlowError>(FlowError::Auth { err: e, cookie_file }),
        }),
{
    match result {
        Ok(s) => Ok(s),
        Err(e) => Err(FlowError::Auth { err: e, cookie_file }),
    }
}

} // verus!
