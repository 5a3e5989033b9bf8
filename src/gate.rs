use vstd::prelude::*;
use crate::user::{Role, role_grants};

verus! {

/// The permission that unlocks the unredacted roster.
pub const ROSTER_EXTENDED_PERMISSION: &'static str = "division.roster.extended";

/// What became of the token header of a request.
#[derive(Clone, Debug)]
pub enum TokenCheck {
    /// No header was sent.
    HeaderMissing,
    /// The header is not a valid header value.
    HeaderInvalid,
    /// The token is malformed, expired or not signed by this service's key.
    TokenRejected,
    /// The token checked out; this is the role it carries.
    Verified(Role),
}

/// A request is authorized when its token checked out and the role it carries holds
/// each permission in `required`.
pub open spec fn authorized(check: TokenCheck, required: Seq<String>) -> bool {
    check matches TokenCheck::Verified(role)
        && forall|j: int| 0 <= j < required.len() ==> role_grants(role, #[trigger] required[j]@)
}

/// Fail-closed permission check: never errs, and denies on anything short of a verified
/// token holding all of `required`.
pub fn authorize(check: &TokenCheck, required: &Vec<String>) -> (r: bool)
    ensures
        r == authorized(*check, required@),
{
    match check {
        TokenCheck::Verified(role) => {
            let mut k: usize = 0;
            while k < required.len()
                invariant
                    *check == TokenCheck::Verified(*role),
                    k <= required@.len(),
                    forall|j: int| 0 <= j < k ==> role_grants(*role, #[trigger] required@[j]@),
                decreases required@.len() - k,
            {
                if !role.grants(&required[k]) {
                    assert(!role_grants(*role, required@[k as int]@));
                    return false;
                }
                k = k + 1;
            }
            true
        },
        _ => false,
    }
}

/// Whether a caller may see the roster unredacted.
pub fn can_view_extended_data(check: &TokenCheck) -> (r: bool)
    ensures
        r == (*check matches TokenCheck::Verified(role) && role_grants(role, ROSTER_EXTENDED_PERMISSION@)),
{
    let required = vec![String::from_str(ROSTER_EXTENDED_PERMISSION)];
    let r = authorize(check, &required);
    proof {
        if check is Verified {
            assert(required@[0]@ == ROSTER_EXTENDED_PERMISSION@);
        }
    }
    r
}

} // verus!
