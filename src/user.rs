use vstd::prelude::*;
use crate::profile::{Area, ProviderProfile};

verus! {

/// The role given at first login to members placed in the home division.
pub const ROLE_CONTROLLER_ID: &'static str = "controller";

/// The role given at first login to everyone else.
pub const ROLE_MEMBER_ID: &'static str = "member";

/// The provider's region id that qualifies for the elevated role.
pub const HOME_REGION_ID: &'static str = "EMEA";

/// The provider's division id that qualifies for the elevated role.
pub const HOME_DIVISION_ID: &'static str = "MENA";

/// A network member as this service records them.
#[derive(Clone, Debug)]
pub struct User {
    pub id: String,
    pub name_first: String,
    pub name_last: String,
    pub name_full: String,
    pub controller_rating_id: i32,
    pub controller_rating_short: String,
    pub controller_rating_long: String,
    pub pilot_rating_id: i32,
    pub pilot_rating_short: String,
    pub pilot_rating_long: String,
    pub region_id: String,
    pub region_name: String,
    pub division_id: String,
    pub division_name: String,
    pub subdivision_id: Option<String>,
    pub subdivision_name: Option<String>,
    pub role: String,
    pub vacc: Option<String>,
}

/// A named bundle of permission strings.
#[derive(Clone, Debug)]
pub struct Role {
    pub id: String,
    pub permissions: Vec<String>,
}

/// Whether a role holds a permission.
pub open spec fn role_grants(role: Role, perm: Seq<char>) -> bool {
    exists|i: int| 0 <= i < role.permissions@.len() && #[trigger] role.permissions@[i]@ == perm
}

/// Whether an optional id is present and equal to the given text.
pub open spec fn id_is(id: Option<String>, s: Seq<char>) -> bool {
    id matches Some(v) && v@ == s
}

/// First-login policy: the elevated role goes to members of the home region and division.
pub open spec fn elevated(p: ProviderProfile) -> bool {
    id_is(p.region.id, HOME_REGION_ID@) && id_is(p.division.id, HOME_DIVISION_ID@)
}

/// The role id a first login is given.
pub open spec fn first_login_role_spec(p: ProviderProfile) -> Seq<char> {
    if elevated(p) { ROLE_CONTROLLER_ID@ } else { ROLE_MEMBER_ID@ }
}

/// A profile carries everything a user record requires.
pub open spec fn complete(p: ProviderProfile) -> bool {
    p.region.id is Some && p.region.name is Some && p.division.id is Some && p.division.name is Some
}

/// The user record made at first login from a complete profile, apart from its role.
pub open spec fn provisioned_from(u: User, p: ProviderProfile) -> bool {
    &&& u.id == p.cid
    &&& u.name_first == p.name_first
    &&& u.name_last == p.name_last
    &&& u.name_full == p.name_full
    &&& u.controller_rating_id == p.rating.id as i32
    &&& u.controller_rating_short == p.rating.short
    &&& u.controller_rating_long == p.rating.long
    &&& u.pilot_rating_id == p.pilot_rating.id as i32
    &&& u.pilot_rating_short == p.pilot_rating.short
    &&& u.pilot_rating_long == p.pilot_rating.long
    &&& Some(u.region_id) == p.region.id
    &&& Some(u.region_name) == p.region.name
    &&& Some(u.division_id) == p.division.id
    &&& Some(u.division_name) == p.division.name
    &&& u.subdivision_id == p.subdivision.id
    &&& u.subdivision_name == p.subdivision.name
    &&& u.role@ == first_login_role_spec(p)
    &&& u.vacc is None
}

fn id_matches(id: &Option<String>, s: &str) -> (r: bool)
    ensures
        r == id_is(*id, s@),
{
    match id {
        Some(v) => *v == String::from_str(s),
        None => false,
    }
}

fn copy_text(o: &Option<String>) -> (r: Option<String>)
    ensures
        r == *o,
{
    match o {
        Some(s) => Some(s.clone()),
        None => None,
    }
}

/// Decides the first-login role from the profile's placement alone.
pub fn first_login_role(p: &ProviderProfile) -> (r: String)
    ensures
        r@ == first_login_role_spec(*p),
{
    if id_matches(&p.region.id, HOME_REGION_ID) && id_matches(&p.division.id, HOME_DIVISION_ID) {
        String::from_str(ROLE_CONTROLLER_ID)
    } else {
        String::from_str(ROLE_MEMBER_ID)
    }
}

/// The user record for a first login, or `None` where the provider left out the region
/// or division that every record must hold.
pub fn new_user(p: &ProviderProfile) -> (r: Option<User>)
    ensures
        r is Some <==> complete(*p),
        r matches Some(u) ==> provisioned_from(u, *p),
{
    match (&p.region, &p.division) {
        (
            Area { id: Some(region_id), name: Some(region_name) },
            Area { id: Some(division_id), name: Some(division_name) },
        ) => Some(User {
            id: p.cid.clone(),
            name_first: p.name_first.clone(),
            name_last: p.name_last.clone(),
            name_full: p.name_full.clone(),
            controller_rating_id: p.rating.id as i32,
            controller_rating_short: p.rating.short.clone(),
            controller_rating_long: p.rating.long.clone(),
            pilot_rating_id: p.pilot_rating.id as i32,
            pilot_rating_short: p.pilot_rating.short.clone(),
            pilot_rating_long: p.pilot_rating.long.clone(),
            region_id: region_id.clone(),
            region_name: region_name.clone(),
            division_id: division_id.clone(),
            division_name: division_name.clone(),
            subdivision_id: copy_text(&p.subdivision.id),
            subdivision_name: copy_text(&p.subdivision.name),
            role: first_login_role(p),
            vacc: None,
        }),
        _ => None,
    }
}

impl User {
    /// A field-for-field copy.
    pub fn duplicate(&self) -> (r: User)
        ensures
            r == *self,
    {
        User {
            id: self.id.clone(),
            name_first: self.name_first.clone(),
            name_last: self.name_last.clone(),
            name_full: self.name_full.clone(),
            controller_rating_id: self.controller_rating_id,
            controller_rating_short: self.controller_rating_short.clone(),
            controller_rating_long: self.controller_rating_long.clone(),
            pilot_rating_id: self.pilot_rating_id,
            pilot_rating_short: self.pilot_rating_short.clone(),
            pilot_rating_long: self.pilot_rating_long.clone(),
            region_id: self.region_id.clone(),
            region_name: self.region_name.clone(),
            division_id: self.division_id.clone(),
            division_name: self.division_name.clone(),
            subdivision_id: copy_text(&self.subdivision_id),
            subdivision_name: copy_text(&self.subdivision_name),
            role: self.role.clone(),
            vacc: copy_text(&self.vacc),
        }
    }
}

impl Role {
    /// Whether the role grants a permission.
    pub fn grants(&self, perm: &String) -> (r: bool)
        ensures
            r == role_grants(*self, perm@),
    {
        let mut k: usize = 0;
        while k < self.permissions.len()
            invariant
                k <= self.permissions@.len(),
                forall|i: int| 0 <= i < k ==> #[trigger] self.permissions@[i]@ != perm@,
            decreases self.permissions@.len() - k,
        {
            if self.permissions[k] == *perm {
                return true;
            }
            k = k + 1;
        }
        false
    }
}

} // verus!
