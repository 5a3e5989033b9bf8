use menahq::gate::{authorize, can_view_extended_data, TokenCheck};
use menahq::profile::{Area, OAuthConfig, ProviderProfile, Rating};
use menahq::roster::{build_roster, redacted_name};
use menahq::user::{first_login_role, new_user, Role, User};

fn role(perms: &[&str]) -> Role {
    Role { id: "r".to_string(), permissions: perms.iter().map(|p| p.to_string()).collect() }
}

fn profile(region: Option<&str>, division: Option<&str>) -> ProviderProfile {
    ProviderProfile {
        cid: "42".to_string(),
        name_first: "A".to_string(),
        name_last: "B".to_string(),
        name_full: "A B".to_string(),
        rating: Rating { id: 2, short: "S1".to_string(), long: "Tower Trainee".to_string() },
        pilot_rating: Rating { id: 1, short: "PPL".to_string(), long: "Private".to_string() },
        region: Area { id: region.map(|s| s.to_string()), name: Some("R".to_string()) },
        division: Area { id: division.map(|s| s.to_string()), name: Some("D".to_string()) },
        subdivision: Area { id: Some("KW".to_string()), name: Some("Kuwait".to_string()) },
    }
}

fn stored(cid: &str, last: &str) -> User {
    let mut p = profile(Some("EMEA"), Some("MENA"));
    p.cid = cid.to_string();
    p.name_last = last.to_string();
    new_user(&p).unwrap()
}

#[test]
fn gate_denies_without_a_verified_token() {
    let req = vec!["division.roster.extended".to_string()];
    assert!(!authorize(&TokenCheck::HeaderMissing, &req));
    assert!(!authorize(&TokenCheck::HeaderInvalid, &req));
    assert!(!authorize(&TokenCheck::TokenRejected, &req));
    assert!(!can_view_extended_data(&TokenCheck::HeaderMissing));
    assert!(!can_view_extended_data(&TokenCheck::TokenRejected));
}

#[test]
fn gate_requires_every_permission() {
    let req = vec!["a".to_string(), "b".to_string()];
    assert!(!authorize(&TokenCheck::Verified(role(&["a"])), &req));
    assert!(authorize(&TokenCheck::Verified(role(&["b", "c", "a"])), &req));
    assert!(authorize(&TokenCheck::Verified(role(&[])), &vec![]));
    assert!(!authorize(&TokenCheck::Verified(role(&[])), &req));
    assert!(can_view_extended_data(&TokenCheck::Verified(role(&["division.roster.extended"]))));
    assert!(!can_view_extended_data(&TokenCheck::Verified(role(&["division.roster"]))));
}

#[test]
fn elevated_role_only_for_home_region_and_division() {
    assert_eq!(first_login_role(&profile(Some("EMEA"), Some("MENA"))), "controller");
    assert_eq!(first_login_role(&profile(Some("EMEA"), Some("EUD"))), "member");
    assert_eq!(first_login_role(&profile(Some("AMAS"), Some("MENA"))), "member");
    assert_eq!(first_login_role(&profile(None, Some("MENA"))), "member");
    assert_eq!(first_login_role(&profile(Some("EMEA"), None)), "member");
    assert_eq!(first_login_role(&profile(Some("emea"), Some("mena"))), "member");
}

#[test]
fn new_user_copies_the_profile() {
    let u = new_user(&profile(Some("EMEA"), Some("EUD"))).unwrap();
    assert_eq!(u.id, "42");
    assert_eq!(u.name_full, "A B");
    assert_eq!(u.controller_rating_short, "S1");
    assert_eq!(u.pilot_rating_id, 1);
    assert_eq!(u.division_id, "EUD");
    assert_eq!(u.division_name, "D");
    assert_eq!(u.subdivision_id, Some("KW".to_string()));
    assert_eq!(u.role, "member");
    assert!(new_user(&profile(None, Some("MENA"))).is_none());
    let d = u.duplicate();
    assert_eq!(d.id, u.id);
    assert_eq!(d.subdivision_name, u.subdivision_name);
}

#[test]
fn roster_redacts_surnames_without_permission() {
    let users = vec![stored("111", "Smith"), stored("222", "Jones")];
    let roster = build_roster(&users, false);
    assert_eq!(roster.users.len(), 2);
    assert_eq!(roster.users[0].name_last, "(111)");
    assert_eq!(roster.users[1].name_last, "(222)");
    assert_eq!(roster.users[0].cid, "111");
    assert_eq!(roster.users[0].rating, "S1");
    assert_eq!(redacted_name(&"7".to_string()), "(7)");
}

#[test]
fn roster_shows_surnames_with_permission() {
    let users = vec![stored("111", "Smith"), stored("222", "Jones")];
    let roster = build_roster(&users, true);
    assert_eq!(roster.users[0].name_last, "Smith");
    assert_eq!(roster.users[1].name_last, "Jones");
    assert_eq!(roster.users[1].role, "controller");
    assert!(build_roster(&vec![], false).users.is_empty());
}

#[test]
fn provider_urls_and_discovery() {
    let c = OAuthConfig {
        endpoint: "https://auth.vatsim.net".to_string(),
        client_id: "id".to_string(),
        client_secret: "SECRET-REDACTED".to_string(),
    };
    assert_eq!(c.token_url(), "https://auth.vatsim.net/oauth/token");
    assert_eq!(c.user_url(), "https://auth.vatsim.net/api/user");
    let d = c.discovery();
    assert_eq!(d.vatsim_endpoint, "https://auth.vatsim.net");
    assert_eq!(d.client_id, "id");
}
