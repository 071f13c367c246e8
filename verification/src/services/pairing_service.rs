//! Pairing codes: a giver device shows a six-digit code, valid for five minutes, that a
//! baby device enters to join the family.
use vstd::prelude::*;
use rand::Rng;
use crate::error::{AppError, fails_with, internal_code};
use crate::text::{digits, decimal, decimal_of, opt_view, parse_i64, parsed_i64, text_eq, lemma_decimal_parses};
use crate::time::{UtcDateTime, format_rfc3339, is_later, later_than, now_utc, parse_rfc3339, rfc3339_parsed, rfc3339_text, shift_seconds, can_shift_by};

verus! {

/// rand: `thread_rng().gen_range(100000..999999)`, a random number from 100000 up to, not
/// including, 999999.
#[verifier::external_body]
fn random_six_digits() -> (r: u32)
    ensures
        100000 <= r < 999999,
{
    rand::thread_rng().gen_range(100000..999999)
}

/// What the store keeps for a pairing code.
#[derive(Debug)]
pub struct PairingGrant {
    /// The code, in decimal.
    pub code: String,
    /// When it expires, in RFC 3339.
    pub expires_at: String,
    /// The family it admits to, in decimal.
    pub family_id: String,
}

/// The grant for the code `number`, issued at `now` for the family: it expires five
/// minutes (300 seconds) after `now`.
pub fn pairing_grant(number: u32, now: &UtcDateTime, family_id: i64) -> (g: PairingGrant)
    requires
        now.wf(),
        now.can_shift(300),
    ensures
        g.code@ == decimal(number as int),
        g.family_id@ == decimal(family_id as int),
        exists|t: UtcDateTime|
            #![trigger rfc3339_text(t)]
            now.shifted_to(300, t) && g.expires_at@ == rfc3339_text(t),
{
    let expires = shift_seconds(now, 300);
    PairingGrant {
        code: decimal_of(number as i64),
        expires_at: format_rfc3339(&expires),
        family_id: decimal_of(family_id),
    }
}

/// A number from 100000 to 999999 is written with six digits.
pub proof fn lemma_six_digits(n: int)
    requires
        100000 <= n < 1000000,
    ensures
        decimal(n).len() == 6,
{
    let n1 = n / 10;
    let n2 = n1 / 10;
    let n3 = n2 / 10;
    let n4 = n3 / 10;
    let n5 = n4 / 10;
    assert(10000 <= n1 < 100000);
    assert(1000 <= n2 < 10000);
    assert(100 <= n3 < 1000);
    assert(10 <= n4 < 100);
    assert(1 <= n5 < 10);
    assert(digits(n5 as nat).len() == 1);
    assert(digits(n4 as nat).len() == 2);
    assert(digits(n3 as nat).len() == 3);
    assert(digits(n2 as nat).len() == 4);
    assert(digits(n1 as nat).len() == 5);
    assert(digits(n as nat).len() == 6);
}

/// A new pairing code for the family, valid for five minutes from now; the time read
/// from the clock is returned beside it. `None` when five minutes from then lies outside
/// the dates chrono can represent.
pub fn generate_pairing_code(family_id: i64) -> (r: (UtcDateTime, Option<PairingGrant>))
    ensures
        r.0.wf(),
        r.1 is None <==> !r.0.can_shift(300),
        r.1 matches Some(g) ==> g.family_id@ == decimal(family_id as int) && g.code@.len() == 6
            && exists|n: int| 100000 <= n < 999999 && #[trigger] decimal(n) == g.code@,
        r.1 matches Some(g) ==> exists|t: UtcDateTime|
            #![trigger rfc3339_text(t)]
            r.0.shifted_to(300, t) && g.expires_at@ == rfc3339_text(t),
{
    let number = random_six_digits();
    let now = now_utc();
    if !can_shift_by(&now, 300) {
        return (now, None);
    }
    let g = pairing_grant(number, &now, family_id);
    assert(decimal(number as int) == g.code@);
    proof {
        lemma_six_digits(number as int);
    }
    (now, Some(g))
}

/// Whether an entered code is accepted against the stored one: there is one and it is
/// the same text.
pub open spec fn pairing_code_accepts(stored: Option<Seq<char>>, code: Seq<char>) -> bool {
    stored == Some(code)
}

/// A pairing code works once: after a successful join the store forgets the code, and
/// with no stored code every entered code is refused.
pub proof fn law_pairing_code_works_once(code: Seq<char>)
    ensures
        !pairing_code_accepts(None, code),
{
}

/// Checks an entered code against the stored one: `PAIRING_CODE_INVALID` when there is
/// none or it differs.
pub fn check_pairing_code(stored: &Option<String>, code: &str) -> (r: Result<(), AppError>)
    ensures
        pairing_code_accepts(opt_view(*stored), code@) ==> r is Ok,
        !pairing_code_accepts(opt_view(*stored), code@) ==> fails_with(
            r,
            "PAIRING_CODE_INVALID"@,
            "Invalid pairing code"@,
        ),
{
    match stored {
        Some(s) => if text_eq(s.as_str(), code) {
            Ok(())
        } else {
            Err(AppError::new("PAIRING_CODE_INVALID", "Invalid pairing code"))
        },
        None => Err(AppError::new("PAIRING_CODE_INVALID", "Invalid pairing code")),
    }
}

/// The error for a code past its expiry.
pub fn pairing_expired() -> (e: AppError)
    ensures
        e.is("PAIRING_CODE_EXPIRED"@, "Pairing code has expired"@),
{
    AppError::new("PAIRING_CODE_EXPIRED", "Pairing code has expired")
}

/// Whether `r` is the verdict on the stored expiry at `now`: `PAIRING_CODE_EXPIRED` when
/// there is none, an internal error when it does not parse, else whether `now` is later
/// than it. An expiry written for a time of a four-digit year reads back as that time.
pub open spec fn expiry_result(expires_at: Option<String>, now: UtcDateTime, r: Result<bool, AppError>) -> bool {
    &&& expires_at is None ==> fails_with(r, "PAIRING_CODE_EXPIRED"@, "Pairing code has expired"@)
    &&& expires_at matches Some(s) ==> match rfc3339_parsed(s@) {
        None => fails_with(r, internal_code(), "Invalid expiry format"@),
        Some(t) => r == Ok::<bool, AppError>(later_than(now, t)),
    }
    &&& forall|t: UtcDateTime|
        #![trigger rfc3339_text(t)]
        t.wf() && 0 <= t.year <= 9999 && opt_view(expires_at) == Some(rfc3339_text(t)) ==> r
            == Ok::<bool, AppError>(later_than(now, t))
}

/// Whether the stored expiry has passed at `now`: `Ok(true)` when it has (the code must
/// then be removed), `Ok(false)` when the code is still valid. No stored expiry counts as
/// expired; one that does not parse as RFC 3339 is an internal error.
pub fn expiry_passed(expires_at: &Option<String>, now: &UtcDateTime) -> (r: Result<bool, AppError>)
    requires
        now.wf(),
    ensures
        expiry_result(*expires_at, *now, r),
{
    match expires_at {
        None => Err(pairing_expired()),
        Some(s) => match parse_rfc3339(s.as_str()) {
            None => Err(AppError::internal("Invalid expiry format")),
            Some(t) => Ok(is_later(now, &t)),
        },
    }
}

/// The family id stored with a pairing code; text that is no `i64` is an internal error.
pub fn parse_pairing_family_id(s: &str) -> (r: Result<i64, AppError>)
    ensures
        parsed_i64(s@) matches Some(n) ==> r == Ok::<i64, AppError>(n),
        parsed_i64(s@) is None ==> fails_with(r, internal_code(), "Invalid family_id"@),
{
    match parse_i64(s) {
        Some(n) => Ok(n),
        None => Err(AppError::internal("Invalid family_id")),
    }
}

/// What checking an entered code against the stored pairing state gives.
#[derive(Debug)]
pub enum PairingVerdict {
    /// Refused; the stored code stays.
    Refused(AppError),
    /// The stored code has expired: refused, and the stored code is forgotten.
    Expired(AppError),
    /// Accepted: the family is read and the stored code forgotten.
    Accepted,
}

/// Whether `v` is the verdict on `code` at `now` against the stored code and expiry: a
/// code other than the stored one (or none stored) is `PAIRING_CODE_INVALID`; then a
/// missing expiry is `PAIRING_CODE_EXPIRED`, one that does not parse an internal error,
/// one that `now` is later than expired, and otherwise the code is accepted.
pub open spec fn verdict_result(
    stored: Option<Seq<char>>,
    expires_at: Option<String>,
    code: Seq<char>,
    now: UtcDateTime,
    v: PairingVerdict,
) -> bool {
    &&& !pairing_code_accepts(stored, code) ==> (v matches PairingVerdict::Refused(e) && e.is(
        "PAIRING_CODE_INVALID"@,
        "Invalid pairing code"@,
    ))
    &&& pairing_code_accepts(stored, code) && expires_at is None ==> (v matches PairingVerdict::Refused(
        e,
    ) && e.is("PAIRING_CODE_EXPIRED"@, "Pairing code has expired"@))
    &&& pairing_code_accepts(stored, code) ==> (expires_at matches Some(x) ==> match rfc3339_parsed(x@) {
        None => v matches PairingVerdict::Refused(e) && e.is(internal_code(), "Invalid expiry format"@),
        Some(t) => if later_than(now, t) {
            v matches PairingVerdict::Expired(e) && e.is(
                "PAIRING_CODE_EXPIRED"@,
                "Pairing code has expired"@,
            )
        } else {
            v is Accepted
        },
    })
    &&& pairing_code_accepts(stored, code) ==> forall|t: UtcDateTime|
        #![trigger rfc3339_text(t)]
        t.wf() && 0 <= t.year <= 9999 && opt_view(expires_at) == Some(rfc3339_text(t)) ==> if later_than(
            now,
            t,
        ) {
            v is Expired
        } else {
            v is Accepted
        }
}

/// Checks an entered code at `now` against the stored code and expiry.
pub fn pairing_verdict(
    stored: &Option<String>,
    expires_at: &Option<String>,
    code: &str,
    now: &UtcDateTime,
) -> (v: PairingVerdict)
    requires
        now.wf(),
    ensures
        verdict_result(opt_view(*stored), *expires_at, code@, *now, v),
{
    if let Err(e) = check_pairing_code(stored, code) {
        return PairingVerdict::Refused(e);
    }
    match expiry_passed(expires_at, now) {
        Err(e) => PairingVerdict::Refused(e),
        Ok(true) => PairingVerdict::Expired(pairing_expired()),
        Ok(false) => PairingVerdict::Accepted,
    }
}

/// A pairing code round trip: the code a grant stores is accepted, before it expires, by
/// the giver holding that grant, and the family stored with it reads back as the family
/// it was issued for; once the code is forgotten (after a join, or replaced by a newer
/// grant with another code) the same code is refused as invalid.
pub proof fn law_pairing_round_trip(
    number: u32,
    issued: UtcDateTime,
    family_id: i64,
    g: PairingGrant,
    expiry: UtcDateTime,
    now: UtcDateTime,
    accepted: PairingVerdict,
    other: Option<Seq<char>>,
    refused: PairingVerdict,
)
    requires
        g.code@ == decimal(number as int),
        g.family_id@ == decimal(family_id as int),
        issued.shifted_to(300, expiry),
        g.expires_at@ == rfc3339_text(expiry),
        0 <= expiry.year <= 9999,
        !later_than(now, expiry),
        verdict_result(Some(g.code@), Some(g.expires_at), g.code@, now, accepted),
        other != Some(g.code@),
        verdict_result(other, None, g.code@, now, refused),
    ensures
        accepted is Accepted,
        parsed_i64(g.family_id@) == Some(family_id),
        refused matches PairingVerdict::Refused(e) && e.is("PAIRING_CODE_INVALID"@, "Invalid pairing code"@),
{
    assert(opt_view(Some(g.expires_at)) == Some(rfc3339_text(expiry)));
    lemma_decimal_parses(family_id);
}

} // verus!
