use vstd::prelude::*;
use crate::user::User;

verus! {

/// The division whose members make up the home roster.
pub const ROSTER_DIVISION_ID: &'static str = "MENA";

/// The controller rating of suspended members, who are left off the roster.
pub const SUSPENDED_RATING: &'static str = "SUS";

/// One row of the home roster.
#[derive(Clone, Debug)]
pub struct HomeUser {
    pub cid: String,
    pub name_first: String,
    pub name_last: String,
    pub role: String,
    pub rating: String,
    pub vacc: Option<String>,
}

/// The home roster as served to a caller.
#[derive(Clone, Debug)]
pub struct HomeRoster {
    pub users: Vec<HomeUser>,
}

/// The surname shown to callers without the extended permission.
pub open spec fn redacted(cid: Seq<char>) -> Seq<char> {
    "("@ + cid + ")"@
}

/// How a stored user appears as a roster row.
pub open spec fn shown_as(row: HomeUser, u: User, extended: bool) -> bool {
    &&& row.cid == u.id
    &&& row.name_first == u.name_first
    &&& (if extended { row.name_last == u.name_last } else { row.name_last@ == redacted(u.id@) })
    &&& row.role == u.role
    &&& row.rating == u.controller_rating_short
    &&& row.vacc == u.vacc
}

pub fn redacted_name(cid: &String) -> (r: String)
    ensures
        r@ == redacted(cid@),
{
    String::from_str("(").concat(cid.as_str()).concat(")")
}

/// The roster row for `u`; without `extended` the surname is replaced by the member id.
pub fn home_user(u: &User, extended: bool) -> (r: HomeUser)
    ensures
        shown_as(r, *u, extended),
{
    HomeUser {
        cid: u.id.clone(),
        name_first: u.name_first.clone(),
        name_last: if extended { u.name_last.clone() } else { redacted_name(&u.id) },
        role: u.role.clone(),
        rating: u.controller_rating_short.clone(),
        vacc: match &u.vacc {
            Some(v) => Some(v.clone()),
            None => None,
        },
    }
}

/// The roster of `users`, in order, redacted unless the caller may see extended data.
pub fn build_roster(users: &Vec<User>, extended: bool) -> (r: HomeRoster)
    ensures
        r.users@.len() == users@.len(),
        forall|i: int| 0 <= i < users@.len() ==> shown_as(#[trigger] r.users@[i], users@[i], extended),
{
    let mut rows: Vec<HomeUser> = Vec::new();
    let mut k: usize = 0;
    while k < users.len()
        invariant
            k <= users@.len(),
            rows@.len() == k,
            forall|i: int| 0 <= i < k ==> shown_as(#[trigger] rows@[i], users@[i], extended),
        decreases users@.len() - k,
    {
        rows.push(home_user(&users[k], extended));
        k = k + 1;
    }
    HomeRoster { users: rows }
}

} // verus!
