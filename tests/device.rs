use bitwarden_rs::claims::{
    build_claims, collect_org_ids, JwtClaims, User, UserOrganization, DEFAULT_VALIDITY_SECS,
    JWT_ISSUER, ORG_ADMIN, ORG_OWNER, ORG_USER,
};
use bitwarden_rs::device::Device;
use bitwarden_rs::time::Timestamp;

fn user(uuid: &str, stamp: &str) -> User {
    User {
        uuid: uuid.to_string(),
        name: "Alice".to_string(),
        email: "alice@example.com".to_string(),
        security_stamp: stamp.to_string(),
    }
}

fn membership(org: &str, role: i32) -> UserOrganization {
    UserOrganization { org_uuid: org.to_string(), type_: role }
}

fn device(uuid: &str, owner: &str) -> Device {
    Device::new(uuid.to_string(), owner.to_string(), "laptop".to_string(), 8)
}

fn at(secs: i64) -> Timestamp {
    Timestamp { secs, nanos: 0 }
}

fn assert_fixed_claims(c: &JwtClaims, u: &User) {
    assert_eq!(c.iss, JWT_ISSUER);
    assert_eq!(c.sub, u.uuid);
    assert_eq!(c.name, u.name);
    assert_eq!(c.email, u.email);
    assert!(c.premium);
    assert!(c.email_verified);
    assert_eq!(c.scope, vec!["api".to_string(), "offline_access".to_string()]);
    assert_eq!(c.amr, vec!["Application".to_string()]);
}

#[test]
fn new_device_starts_without_tokens() {
    let d = device("d1", "u1");
    assert_eq!(d.uuid, "d1");
    assert_eq!(d.user_uuid, "u1");
    assert_eq!(d.name, "laptop");
    assert_eq!(d.type_, 8);
    assert_eq!(d.created_at, d.updated_at);
    assert!(d.created_at.secs > 0);
    assert_eq!(d.push_token, None);
    assert_eq!(d.refresh_token, "");
    assert_eq!(d.twofactor_remember, None);
}

#[test]
fn new_at_uses_given_instant() {
    let d = Device::new_at("d".to_string(), "u".to_string(), "n".to_string(), 1, at(42));
    assert_eq!(d.created_at, at(42));
    assert_eq!(d.updated_at, at(42));
}

#[test]
fn issue_without_memberships_gives_empty_role_lists() {
    let mut d = device("d1", "u1");
    let u = user("u1", "s1");
    let (claims, validity) = d.refresh_tokens(&u, vec![]).unwrap();
    assert!(!d.refresh_token.is_empty());
    assert!(claims.orgowner.is_empty());
    assert!(claims.orgadmin.is_empty());
    assert!(claims.orguser.is_empty());
    assert_eq!(claims.sstamp, "s1");
    assert_eq!(claims.device, "d1");
    assert_eq!(validity, claims.exp - claims.nbf);
    assert_fixed_claims(&claims, &u);
}

#[test]
fn issue_partitions_memberships_by_role() {
    let mut d = device("d1", "u1");
    let u = user("u1", "s1");
    let orgs = vec![membership("o1", ORG_OWNER), membership("o2", ORG_USER)];
    let (claims, _) = d.refresh_tokens(&u, orgs).unwrap();
    assert_eq!(claims.orgowner, vec!["o1".to_string()]);
    assert_eq!(claims.orguser, vec!["o2".to_string()]);
    assert!(claims.orgadmin.is_empty());
}

#[test]
fn other_roles_are_left_out_of_claims() {
    let orgs = vec![
        membership("a", ORG_ADMIN),
        membership("m", 3),
        membership("b", ORG_ADMIN),
        membership("o", ORG_OWNER),
    ];
    assert_eq!(collect_org_ids(&orgs, ORG_ADMIN), vec!["a".to_string(), "b".to_string()]);
    assert_eq!(collect_org_ids(&orgs, ORG_OWNER), vec!["o".to_string()]);
    assert!(collect_org_ids(&orgs, ORG_USER).is_empty());
    let c = build_claims(&"d".to_string(), &user("u", "s"), &orgs, 1000);
    let listed = c.orgowner.len() + c.orgadmin.len() + c.orguser.len();
    assert_eq!(listed, 3);
    assert!(!c.orgowner.contains(&"m".to_string()));
    assert!(!c.orgadmin.contains(&"m".to_string()));
    assert!(!c.orguser.contains(&"m".to_string()));
}

#[test]
fn validity_equals_claim_window() {
    let mut d = device("d2", "u2");
    let (claims, validity) = d.refresh_tokens(&user("u2", "s"), vec![]).unwrap();
    assert_eq!(validity, DEFAULT_VALIDITY_SECS);
    assert_eq!(validity, 7200);
    assert_eq!(claims.exp - claims.nbf, validity);
    assert!(claims.nbf <= d.updated_at.secs);
}

#[test]
fn issue_at_fixed_instant() {
    let mut d = Device::new_at("d".to_string(), "u".to_string(), "n".to_string(), 0, at(100));
    d.refresh_token = "tok".to_string();
    let u = user("u", "stamp");
    let (c, v) = d.issue_at(at(1_000), &u, &vec![membership("x", ORG_ADMIN)]);
    assert_eq!(c.nbf, 1_000);
    assert_eq!(c.exp, 8_200);
    assert_eq!(v, 7_200);
    assert_eq!(c.orgadmin, vec!["x".to_string()]);
    assert_eq!(c.sstamp, "stamp");
    assert_eq!(d.updated_at, at(1_000));
    assert_eq!(d.refresh_token, "tok");
    assert_fixed_claims(&c, &u);
}

#[test]
fn ensure_refresh_token_is_idempotent() {
    let mut d = device("d3", "u3");
    let t1 = d.ensure_refresh_token().unwrap();
    assert!(!t1.is_empty());
    assert_eq!(t1.len(), 88);
    let t2 = d.ensure_refresh_token().unwrap();
    assert_eq!(t1, t2);
    assert_eq!(d.refresh_token, t1);
}

#[test]
fn refresh_tokens_keeps_existing_refresh_token() {
    let mut d = device("d4", "u4");
    d.refresh_token = "existing".to_string();
    let u = user("u4", "s");
    d.refresh_tokens(&u, vec![]).unwrap();
    assert_eq!(d.refresh_token, "existing");
    d.refresh_tokens(&u, vec![]).unwrap();
    assert_eq!(d.refresh_token, "existing");
}

#[test]
fn refresh_tokens_twice_returns_same_refresh_token() {
    let mut d = device("d5", "u5");
    let u = user("u5", "s");
    d.refresh_tokens(&u, vec![]).unwrap();
    let first = d.refresh_token.clone();
    assert_eq!(first.len(), 88);
    d.refresh_tokens(&u, vec![]).unwrap();
    assert_eq!(d.refresh_token, first);
}

#[test]
fn install_refresh_token_is_url_safe_base64() {
    let mut d = device("d6", "u6");
    d.install_refresh_token(&[0xfb, 0xff]);
    assert_eq!(d.refresh_token, "-_8=");
    d.install_refresh_token(&[1, 2, 3]);
    assert_eq!(d.refresh_token, "-_8=");
}

#[test]
fn remember_token_is_standard_base64() {
    let mut d = device("d7", "u7");
    let t = d.set_twofactor_remember(b"Hello world");
    assert_eq!(t, "SGVsbG8gd29ybGQ=");
    assert_eq!(d.twofactor_remember, Some("SGVsbG8gd29ybGQ=".to_string()));
    let t = d.set_twofactor_remember(&[0xfb, 0xff]);
    assert_eq!(t, "+/8=");
}

#[test]
fn remember_token_is_reissued_each_time() {
    let mut d = device("d8", "u8");
    let t1 = d.refresh_twofactor_remember().unwrap();
    let t2 = d.refresh_twofactor_remember().unwrap();
    assert_ne!(t1, t2);
    assert_eq!(t1.len(), 240);
    assert_eq!(d.twofactor_remember, Some(t2));
}

#[test]
fn deleting_remember_token_leaves_none() {
    let mut d = device("d9", "u9");
    d.refresh_twofactor_remember().unwrap();
    d.delete_twofactor_remember();
    assert_eq!(d.twofactor_remember, None);
    d.delete_twofactor_remember();
    assert_eq!(d.twofactor_remember, None);
}

#[test]
fn touch_never_moves_back() {
    let mut d = Device::new_at("d".to_string(), "u".to_string(), "n".to_string(), 0, at(500));
    d.touch(at(400));
    assert_eq!(d.updated_at, at(500));
    d.touch(Timestamp { secs: 500, nanos: 7 });
    assert_eq!(d.updated_at, Timestamp { secs: 500, nanos: 7 });
    d.touch(at(900));
    assert_eq!(d.updated_at, at(900));
    assert_eq!(d.created_at, at(500));
}

#[test]
fn later_of_picks_later_instant() {
    assert_eq!(Timestamp::later_of(at(1), at(2)), at(2));
    assert_eq!(Timestamp::later_of(at(3), at(2)), at(3));
    assert!(at(1).is_before(&at(2)));
    assert!(!at(2).is_before(&at(2)));
}
