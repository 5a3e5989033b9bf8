use vstd::prelude::*;
use crate::user::User;

verus! {

/// Who caused an audited event.
#[derive(Clone, Debug)]
pub enum Actor {
    System,
    User(String),
}

/// The text form of a reference to a user, as actor or as subject.
pub open spec fn user_ref(id: Seq<char>) -> Seq<char> {
    "user:"@ + id
}

pub open spec fn actor_text(a: Actor) -> Seq<char> {
    match a {
        Actor::System => "system"@,
        Actor::User(id) => user_ref(id@),
    }
}

fn user_ref_text(id: &String) -> (r: String)
    ensures
        r@ == user_ref(id@),
{
    String::from_str("user:").concat(id.as_str())
}

impl Actor {
    pub fn text(&self) -> (r: String)
        ensures
            r@ == actor_text(*self),
    {
        match self {
            Actor::System => String::from_str("system"),
            Actor::User(id) => user_ref_text(id),
        }
    }
}

/// An audit entry before the store gives it an id and a timestamp.
#[derive(Clone, Debug)]
pub struct AuditRecord {
    pub actor: String,
    pub item: String,
    pub before: Option<User>,
    pub after: Option<User>,
    pub message: String,
}

/// The entry that records the creation of `user` by the system.
pub open spec fn is_creation_record(r: AuditRecord, user: User) -> bool {
    &&& r.actor@ == actor_text(Actor::System)
    &&& r.item@ == user_ref(user.id@)
    &&& r.before is None
    &&& r.after == Some(user)
    &&& r.message@ == "Created new user"@
}

/// The entry that records a new session of `user`.
pub open spec fn is_login_record(r: AuditRecord, user: User) -> bool {
    &&& r.actor@ == actor_text(Actor::User(user.id))
    &&& r.item@ == user_ref(user.id@)
    &&& r.before is None
    &&& r.after is None
    &&& r.message@ == "Logged in on new session"@
}

impl AuditRecord {
    /// Records that the system created `user`, with the new record as after-state.
    pub fn user_created(user: &User) -> (r: AuditRecord)
        ensures
            is_creation_record(r, *user),
    {
        AuditRecord {
            actor: Actor::System.text(),
            item: user_ref_text(&user.id),
            before: None,
            after: Some(user.duplicate()),
            message: String::from_str("Created new user"),
        }
    }

    /// Records that `user` logged in on a new session.
    pub fn logged_in(user: &User) -> (r: AuditRecord)
        ensures
            is_login_record(r, *user),
    {
        AuditRecord {
            actor: Actor::User(user.id.clone()).text(),
            item: user_ref_text(&user.id),
            before: None,
            after: None,
            message: String::from_str("Logged in on new session"),
        }
    }
}

} // verus!
