use vstd::prelude::*;

verus! {

/// Membership role: owner of the organization.
pub const ORG_OWNER: i32 = 0;

/// Membership role: administrator of the organization.
pub const ORG_ADMIN: i32 = 1;

/// Membership role: plain member of the organization.
pub const ORG_USER: i32 = 2;

/// How long an access token stays valid, in seconds (two hours).
pub const DEFAULT_VALIDITY_SECS: i64 = 7200;

/// The issuer written into every access token.
pub const JWT_ISSUER: &'static str = "bitwarden_rs|login";

/// The account a device belongs to, as far as token issuance reads it.
#[derive(Clone, Debug)]
pub struct User {
    pub uuid: String,
    pub name: String,
    pub email: String,
    /// Changes whenever the user's credentials change.
    pub security_stamp: String,
}

/// A user's membership in an organization.
#[derive(Clone, Debug)]
pub struct UserOrganization {
    pub org_uuid: String,
    /// One of `ORG_OWNER`, `ORG_ADMIN`, `ORG_USER`, or another role that
    /// grants no claim.
    pub type_: i32,
}

/// The claim set of an access token.
#[derive(Clone, Debug)]
pub struct JwtClaims {
    /// Not valid before, seconds since the epoch.
    pub nbf: i64,
    /// Expiry, seconds since the epoch.
    pub exp: i64,
    pub iss: String,
    pub sub: String,
    pub premium: bool,
    pub name: String,
    pub email: String,
    pub email_verified: bool,
    pub orgowner: Vec<String>,
    pub orgadmin: Vec<String>,
    pub orguser: Vec<String>,
    pub sstamp: String,
    pub device: String,
    pub scope: Vec<String>,
    pub amr: Vec<String>,
}

/// The organization ids of the memberships with the given role, in input order.
pub open spec fn org_ids_with_role(orgs: Seq<UserOrganization>, role: i32) -> Seq<String>
    decreases orgs.len(),
{
    if orgs.len() == 0 {
        Seq::empty()
    } else {
        let rest = org_ids_with_role(orgs.drop_last(), role);
        if orgs.last().type_ == role {
            rest.push(orgs.last().org_uuid)
        } else {
            rest
        }
    }
}

/// The views of a sequence of strings.
pub open spec fn texts(v: Seq<String>) -> Seq<Seq<char>> {
    v.map_values(|s: String| s@)
}

/// The scopes granted by every access token.
pub open spec fn token_scope() -> Seq<Seq<char>> {
    seq!["api"@, "offline_access"@]
}

/// The authentication methods named by every access token.
pub open spec fn token_amr() -> Seq<Seq<char>> {
    seq!["Application"@]
}

/// The claim set issued at second `now` for `user` on the device `device_uuid`.
pub open spec fn claims_for(
    device_uuid: Seq<char>,
    user: User,
    orgs: Seq<UserOrganization>,
    now: i64,
    c: JwtClaims,
) -> bool {
    &&& c.nbf == now
    &&& c.exp == now + DEFAULT_VALIDITY_SECS
    &&& c.iss@ == JWT_ISSUER@
    &&& c.sub == user.uuid
    &&& c.premium
    &&& c.name == user.name
    &&& c.email == user.email
    &&& c.email_verified
    &&& c.orgowner@ == org_ids_with_role(orgs, ORG_OWNER)
    &&& c.orgadmin@ == org_ids_with_role(orgs, ORG_ADMIN)
    &&& c.orguser@ == org_ids_with_role(orgs, ORG_USER)
    &&& c.sstamp == user.security_stamp
    &&& c.device@ == device_uuid
    &&& texts(c.scope@) == token_scope()
    &&& texts(c.amr@) == token_amr()
}

/// The organization ids of the memberships with the given role, in input order.
pub fn collect_org_ids(orgs: &Vec<UserOrganization>, role: i32) -> (r: Vec<String>)
    ensures
        r@ == org_ids_with_role(orgs@, role),
{
    let mut r: Vec<String> = Vec::new();
    let mut i: usize = 0;
    while i < orgs.len()
        invariant
            i <= orgs@.len(),
            r@ == org_ids_with_role(orgs@.subrange(0, i as int), role),
        decreases orgs@.len() - i,
    {
        assert(orgs@.subrange(0, i as int + 1).drop_last() =~= orgs@.subrange(0, i as int));
        if orgs[i].type_ == role {
            r.push(orgs[i].org_uuid.clone());
        }
        i += 1;
    }
    assert(orgs@.subrange(0, orgs@.len() as int) =~= orgs@);
    r
}

/// Assembles the claim set of an access token issued at second `now`.
pub fn build_claims(device_uuid: &String, user: &User, orgs: &Vec<UserOrganization>, now: i64) -> (r:
    JwtClaims)
    requires
        now <= i64::MAX - DEFAULT_VALIDITY_SECS,
    ensures
        claims_for(device_uuid@, *user, orgs@, now, r),
{
    let scope = vec!["api".to_owned(), "offline_access".to_owned()];
    let amr = vec!["Application".to_owned()];
    proof {
        assert(texts(scope@) =~= token_scope());
        assert(texts(amr@) =~= token_amr());
    }
    JwtClaims {
        nbf: now,
        exp: now + DEFAULT_VALIDITY_SECS,
        iss: JWT_ISSUER.to_owned(),
        sub: user.uuid.clone(),
        premium: true,
        name: user.name.clone(),
        email: user.email.clone(),
        email_verified: true,
        orgowner: collect_org_ids(orgs, ORG_OWNER),
        orgadmin: collect_org_ids(orgs, ORG_ADMIN),
        orguser: collect_org_ids(orgs, ORG_USER),
        sstamp: user.security_stamp.clone(),
        device: device_uuid.clone(),
        scope,
        amr,
    }
}

/// Every membership with the given role contributes its organization id, and
/// every listed id comes from a membership with that role.
pub proof fn lemma_org_ids_with_role(orgs: Seq<UserOrganization>, role: i32)
    ensures
        forall|i: int|
            0 <= i < orgs.len() && (#[trigger] orgs[i]).type_ == role ==> org_ids_with_role(
                orgs,
                role,
            ).contains(orgs[i].org_uuid),
        forall|x: String|
            #[trigger] org_ids_with_role(orgs, role).contains(x) ==> exists|i: int|
                0 <= i < orgs.len() && (#[trigger] orgs[i]).type_ == role && orgs[i].org_uuid == x,
    decreases orgs.len(),
{
    if orgs.len() > 0 {
        let init = orgs.drop_last();
        lemma_org_ids_with_role(init, role);
        let rest = org_ids_with_role(init, role);
        let all = org_ids_with_role(orgs, role);
        assert forall|i: int| 0 <= i < orgs.len() && (#[trigger] orgs[i]).type_ == role implies all.contains(
            orgs[i].org_uuid,
        ) by {
            if i < orgs.len() - 1 {
                assert(init[i] == orgs[i]);
                let k = choose|k: int| 0 <= k < rest.len() && rest[k] == orgs[i].org_uuid;
                assert(all[k] == rest[k]);
            } else {
                assert(all[all.len() - 1] == orgs[i].org_uuid);
            }
        }
        assert forall|x: String| #[trigger] all.contains(x) implies exists|i: int|
            0 <= i < orgs.len() && (#[trigger] orgs[i]).type_ == role && orgs[i].org_uuid == x by {
            let k = choose|k: int| 0 <= k < all.len() && all[k] == x;
            if k < rest.len() {
                assert(rest.contains(x));
                let i = choose|i: int|
                    0 <= i < init.len() && (#[trigger] init[i]).type_ == role && init[i].org_uuid == x;
                assert(orgs[i] == init[i]);
            } else {
                assert(orgs[orgs.len() - 1].org_uuid == x);
            }
        }
    }
}

/// The claim lists partition the memberships by role: where organization ids
/// are distinct, an organization is listed among the owners, the admins or
/// the plain members exactly when its membership has that role, so each
/// membership with one of these roles lands in exactly one list and any other
/// membership in none; every listed id belongs to a membership of that role.
pub proof fn lemma_claims_partition_roles(
    device_uuid: Seq<char>,
    user: User,
    orgs: Seq<UserOrganization>,
    now: i64,
    c: JwtClaims,
)
    requires
        claims_for(device_uuid, user, orgs, now, c),
        forall|i: int, j: int|
            0 <= i < j < orgs.len() ==> (#[trigger] orgs[i]).org_uuid != (#[trigger] orgs[j]).org_uuid,
    ensures
        forall|i: int|
            0 <= i < orgs.len() ==> {
                &&& c.orgowner@.contains((#[trigger] orgs[i]).org_uuid) == (orgs[i].type_ == ORG_OWNER)
                &&& c.orgadmin@.contains(orgs[i].org_uuid) == (orgs[i].type_ == ORG_ADMIN)
                &&& c.orguser@.contains(orgs[i].org_uuid) == (orgs[i].type_ == ORG_USER)
            },
        forall|x: String|
            #[trigger] c.orgowner@.contains(x) ==> exists|i: int|
                0 <= i < orgs.len() && (#[trigger] orgs[i]).type_ == ORG_OWNER && orgs[i].org_uuid == x,
        forall|x: String|
            #[trigger] c.orgadmin@.contains(x) ==> exists|i: int|
                0 <= i < orgs.len() && (#[trigger] orgs[i]).type_ == ORG_ADMIN && orgs[i].org_uuid == x,
        forall|x: String|
            #[trigger] c.orguser@.contains(x) ==> exists|i: int|
                0 <= i < orgs.len() && (#[trigger] orgs[i]).type_ == ORG_USER && orgs[i].org_uuid == x,
{
    lemma_org_ids_with_role(orgs, ORG_OWNER);
    lemma_org_ids_with_role(orgs, ORG_ADMIN);
    lemma_org_ids_with_role(orgs, ORG_USER);
    assert forall|i: int| 0 <= i < orgs.len() implies {
        &&& c.orgowner@.contains((#[trigger] orgs[i]).org_uuid) == (orgs[i].type_ == ORG_OWNER)
        &&& c.orgadmin@.contains(orgs[i].org_uuid) == (orgs[i].type_ == ORG_ADMIN)
        &&& c.orguser@.contains(orgs[i].org_uuid) == (orgs[i].type_ == ORG_USER)
    } by {
        let id = orgs[i].org_uuid;
        if c.orgowner@.contains(id) {
            let j = choose|j: int|
                0 <= j < orgs.len() && (#[trigger] orgs[j]).type_ == ORG_OWNER && orgs[j].org_uuid == id;
            if j < i {
                assert(orgs[j].org_uuid != orgs[i].org_uuid);
            } else if i < j {
                assert(orgs[i].org_uuid != orgs[j].org_uuid);
            }
        }
        if c.orgadmin@.contains(id) {
            let j = choose|j: int|
                0 <= j < orgs.len() && (#[trigger] orgs[j]).type_ == ORG_ADMIN && orgs[j].org_uuid == id;
            if j < i {
                assert(orgs[j].org_uuid != orgs[i].org_uuid);
            } else if i < j {
                assert(orgs[i].org_uuid != orgs[j].org_uuid);
            }
        }
        if c.orguser@.contains(id) {
            let j = choose|j: int|
                0 <= j < orgs.len() && (#[trigger] orgs[j]).type_ == ORG_USER && orgs[j].org_uuid == id;
            if j < i {
                assert(orgs[j].org_uuid != orgs[i].org_uuid);
            } else if i < j {
                assert(orgs[i].org_uuid != orgs[j].org_uuid);
            }
        }
    }
}

} // verus!
