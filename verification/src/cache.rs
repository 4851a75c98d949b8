//! The per-guild role cache: a durable mapping from a guild id to the id of
//! that guild's verification role, provisioned at most once per guild.
//!
//! The mapping lives in a sled tree so that it survives restarts. Every
//! write goes through an atomic compare-and-swap, so that of two racing
//! first-touch provisioning attempts for one guild at most one installs its
//! candidate and the other discovers and reuses the winner's role id.

use vstd::prelude::*;
use crate::engine::roles_contain;

verus! {

#[verifier::external_type_specification]
#[verifier::external_body]
/// The sled database handle, opaque to the verifier.
pub struct ExDb(sled::Db);

#[verifier::external_type_specification]
#[verifier::external_body]
/// The sled backend error, opaque to the verifier.
pub struct ExSledError(sled::Error);

/// The guild-to-role bindings a cache's sled tree currently holds, each key
/// and value read as the big-endian bytes of a 64-bit id.
pub uninterp spec fn role_map(db: sled::Db) -> Map<u64, u64>;

/// The binding a map holds for a key, if any.
pub open spec fn spec_get(m: Map<u64, u64>, key: u64) -> Option<u64> {
    if m.dom().contains(key) {
        Some(m[key])
    } else {
        None
    }
}

/// The backend failed; the reconciliation attempt that needed the cache is
/// abandoned and may be retried later.
#[derive(Clone, Copy, PartialEq, Eq, Structural, Debug)]
pub enum StoreError {
    Backend,
}

/// What a guild's verification role currently is, as far as the cache and
/// the guild's own role list show.
#[derive(Clone, Copy, PartialEq, Eq, Structural, Debug)]
pub enum RoleResolution {
    /// The cached role id, confirmed to still exist in the guild.
    Existing(u64),
    /// No usable binding: the caller must create the role on the platform
    /// and record the new id.
    NeedsCreation,
}

/// The resolution a cache state and a guild role list call for: a cached id
/// is used only while the guild still has that role; a missing or stale
/// binding asks for provisioning.
pub open spec fn resolution_of(m: Map<u64, u64>, guild: u64, guild_roles: Seq<u64>) -> RoleResolution {
    match spec_get(m, guild) {
        Some(id) => if guild_roles.contains(id) {
            RoleResolution::Existing(id)
        } else {
            RoleResolution::NeedsCreation
        },
        None => RoleResolution::NeedsCreation,
    }
}

/// The cache contents after a first-touch provisioning attempt that
/// proposed `candidate` for `guild`: the attempt that finds the guild
/// unbound installs its candidate; any other leaves the cache as it is.
pub open spec fn provision_map(m: Map<u64, u64>, guild: u64, candidate: u64) -> Map<u64, u64> {
    if m.dom().contains(guild) {
        m
    } else {
        m.insert(guild, candidate)
    }
}

/// The role id a first-touch provisioning attempt converges on: the already
/// installed id when there is one, else the attempt's own candidate.
pub open spec fn provision_id(m: Map<u64, u64>, guild: u64, candidate: u64) -> u64 {
    if m.dom().contains(guild) {
        m[guild]
    } else {
        candidate
    }
}

/// The attributes every freshly provisioned verification role is created
/// with.
pub struct RoleAttributes {
    /// The role's fixed display name.
    pub name: Vec<char>,
    /// The role's fixed display colour.
    pub colour: u32,
    /// Shown separately in the member list.
    pub hoisted: bool,
    /// May be mentioned by other members.
    pub mentionable: bool,
}

/// The fixed display name of the verification role.
pub open spec fn role_name() -> Seq<char> {
    seq!['U', 'T', 'e', 'x', 'a', 's', ' ', 'V', 'e', 'r', 'i', 'f', 'i', 'e', 'd']
}

/// The fixed display colour of the verification role.
pub const ROLE_COLOUR: u32 = 0xbf5700;

/// What a provisioning attempt asks the platform to create: the fixed name
/// and colour, hoisted and mentionable.
pub fn verification_role_attributes() -> (r: RoleAttributes)
    ensures
        r.name@ == role_name(),
        r.colour == ROLE_COLOUR,
        r.hoisted,
        r.mentionable,
{
    let name: Vec<char> = vec![
        'U',
        'T',
        'e',
        'x',
        'a',
        's',
        ' ',
        'V',
        'e',
        'r',
        'i',
        'f',
        'i',
        'e',
        'd',
    ];
    proof {
        assert(name@ =~= role_name());
    }
    RoleAttributes { name, colour: ROLE_COLOUR, hoisted: true, mentionable: true }
}

/// The durable guild-to-verification-role cache.
pub struct RoleCache {
    db: sled::Db,
}

impl RoleCache {
    /// The guild-to-role bindings this cache currently holds.
    pub closed spec fn entries(self) -> Map<u64, u64> {
        role_map(self.db)
    }

    /// Wraps an already opened sled database as a role cache.
    pub fn new(db: sled::Db) -> (c: RoleCache)
        ensures
            c.entries() == role_map(db),
    {
        RoleCache { db }
    }

    /// Relies on sled::Tree::get: returns the value stored for the key, here
    /// decoded from eight big-endian bytes, or an Err on a backend failure.
    #[verifier::external_body]
    fn store_get(&self, guild: u64) -> (r: Result<Option<u64>, sled::Error>)
        ensures
            (r matches Ok(v) ==> v == spec_get(role_map(self.db), guild)),
    {
        match self.db.get(guild.to_be_bytes()) {
            Ok(v) => Ok(v.and_then(|raw| raw.as_ref().try_into().ok()).map(u64::from_be_bytes)),
            Err(e) => Err(e),
        }
    }

    /// Relies on sled::Tree::compare_and_swap: atomically replaces the
    /// stored value for the key with the proposed one exactly when the raw
    /// stored bytes equal the expected ones (no expectation means the key is
    /// expected absent), and otherwise changes nothing and hands back the
    /// raw current value. The comparison is on bytes, so a decoded current
    /// binding is known to differ from the expectation only when it decodes
    /// at all; a stored value of another length decodes to `None`, which the
    /// mismatch outcome may therefore share with the expectation. A backend
    /// failure can be raised before the swap or, once the swap is already
    /// installed in memory, while completing the log write behind it, so a
    /// failure leaves the tree either unchanged or already holding the
    /// proposed value.
    #[verifier::external_body]
    fn store_cas(&mut self, guild: u64, expected: Option<u64>, proposed: u64) -> (r: Result<
        Result<(), Option<u64>>,
        sled::Error,
    >)
        ensures
            (r matches Ok(Ok(())) ==> spec_get(role_map(old(self).db), guild) == expected
                && role_map(final(self).db) == role_map(old(self).db).insert(guild, proposed)),
            (r matches Ok(Err(current)) ==> current == spec_get(role_map(old(self).db), guild) && (
            current is Some ==> current != expected) && role_map(final(self).db) == role_map(
                old(self).db,
            )),
            (r is Err ==> role_map(final(self).db) == role_map(old(self).db) || (spec_get(
                role_map(old(self).db),
                guild,
            ) == expected && role_map(final(self).db) == role_map(old(self).db).insert(
                guild,
                proposed,
            ))),
    {
        let expected_bytes = expected.map(u64::to_be_bytes);
        let proposed_bytes = proposed.to_be_bytes();
        let key = guild.to_be_bytes();
        let old_arg = expected_bytes.as_ref().map(|b| &b[..]);
        match self.db.compare_and_swap(key, old_arg, Some(&proposed_bytes[..])) {
            Ok(Ok(())) => Ok(Ok(())),
            Ok(Err(m)) => Ok(
                Err(m.current.and_then(|raw| raw.as_ref().try_into().ok()).map(u64::from_be_bytes)),
            ),
            Err(e) => Err(e),
        }
    }

    /// The cached verification-role id for the guild, if one was ever
    /// recorded; no platform call is made.
    pub fn cached_role(&self, guild: u64) -> (r: Result<Option<u64>, StoreError>)
        ensures
            (r matches Ok(v) ==> v == spec_get(self.entries(), guild)),
    {
        match self.store_get(guild) {
            Ok(v) => Ok(v),
            Err(_) => Err(StoreError::Backend),
        }
    }

    /// Whether the guild needs a verification role provisioned: a cached id
    /// counts only while the guild's own role list still carries it, so a
    /// role deleted behind the cache's back is detected rather than reused.
    pub fn resolve_role(&self, guild: u64, guild_roles: &Vec<u64>) -> (r: Result<
        RoleResolution,
        StoreError,
    >)
        ensures
            (r matches Ok(res) ==> res == resolution_of(self.entries(), guild, guild_roles@)),
    {
        let cached = self.cached_role(guild)?;
        match cached {
            Some(id) => {
                if roles_contain(guild_roles, id) {
                    Ok(RoleResolution::Existing(id))
                } else {
                    Ok(RoleResolution::NeedsCreation)
                }
            },
            None => Ok(RoleResolution::NeedsCreation),
        }
    }

    /// Durably records a freshly created verification role for the guild,
    /// atomically and only while the cache still holds the binding the
    /// caller saw (`expected`). The returned id is the binding the cache
    /// holds afterwards: the caller's role when its recording won, and the
    /// concurrent winner's role when another recording got there first. A
    /// failure leaves the cache either as it was or, when the backend failed
    /// only after installing the swap, already holding the attempted
    /// binding; a later attempt resolves and retries correctly either way,
    /// and a binding that leaked in on failure is the genuinely created
    /// role.
    pub fn record_role(&mut self, guild: u64, expected: Option<u64>, role: u64) -> (r: Result<
        u64,
        StoreError,
    >)
        ensures
            (r matches Ok(id) ==> {
                let before = old(self).entries();
                let after = final(self).entries();
                &&& (spec_get(before, guild) == expected ==> after == before.insert(guild, role)
                    && id == role)
                &&& (spec_get(before, guild) != expected ==> after == before && Some(id)
                    == spec_get(before, guild))
                &&& spec_get(after, guild) == Some(id)
            }),
            (r matches Ok(id) ==> (expected is None ==> final(self).entries() == provision_map(
                old(self).entries(),
                guild,
                role,
            ) && id == provision_id(old(self).entries(), guild, role))),
            (r is Err ==> final(self).entries() == old(self).entries() || (spec_get(
                old(self).entries(),
                guild,
            ) == expected && final(self).entries() == old(self).entries().insert(guild, role))),
    {
        match self.store_cas(guild, expected, role) {
            Ok(Ok(())) => Ok(role),
            Ok(Err(current)) => {
                match current {
                    Some(winner) => Ok(winner),
                    None => Err(StoreError::Backend),
                }
            },
            Err(_) => Err(StoreError::Backend),
        }
    }
}

/// Exactly-once provisioning: when a guild is still unbound, the first
/// recording installs its own candidate, and any later recording for that
/// guild leaves the cache unchanged and converges on that same id, whatever
/// candidate it proposes.
pub proof fn lemma_provision_exactly_once(m: Map<u64, u64>, guild: u64, c1: u64, c2: u64)
    requires
        spec_get(m, guild) is None,
    ensures
        provision_id(m, guild, c1) == c1,
        provision_map(m, guild, c1) == m.insert(guild, c1),
        provision_map(provision_map(m, guild, c1), guild, c2) == provision_map(m, guild, c1),
        provision_id(provision_map(m, guild, c1), guild, c2) == c1,
{
}

/// The cache contents after a run of first-touch provisioning attempts for
/// one guild, each proposing its own candidate, in order.
pub open spec fn provision_run(m: Map<u64, u64>, guild: u64, candidates: Seq<u64>) -> Map<u64, u64>
    decreases candidates.len(),
{
    if candidates.len() == 0 {
        m
    } else {
        provision_run(provision_map(m, guild, candidates[0]), guild, candidates.drop_first())
    }
}

/// The id the attempt at position `i` of such a run converges on.
pub open spec fn run_id(m: Map<u64, u64>, guild: u64, candidates: Seq<u64>, i: int) -> u64 {
    provision_id(provision_run(m, guild, candidates.take(i)), guild, candidates[i])
}

/// A guild that is already bound is never touched again: any run of
/// provisioning attempts leaves the cache exactly as it is.
proof fn lemma_provision_run_stable(m: Map<u64, u64>, guild: u64, candidates: Seq<u64>)
    requires
        m.dom().contains(guild),
    ensures
        provision_run(m, guild, candidates) == m,
    decreases candidates.len(),
{
    if candidates.len() > 0 {
        lemma_provision_run_stable(m, guild, candidates.drop_first());
    }
}

/// Exactly-once provisioning, for any number of attempts: in a run of
/// first-touch attempts against an unbound guild, the first installs its
/// candidate, the cache gains exactly that one binding, and every attempt of
/// the run converges on that same id, whatever it proposed itself.
pub proof fn lemma_provision_run_converges(m: Map<u64, u64>, guild: u64, candidates: Seq<u64>)
    requires
        spec_get(m, guild) is None,
        candidates.len() > 0,
    ensures
        provision_run(m, guild, candidates) == m.insert(guild, candidates[0]),
        forall|i: int|
            0 <= i < candidates.len() ==> #[trigger] run_id(m, guild, candidates, i)
                == candidates[0],
{
    let installed = m.insert(guild, candidates[0]);
    lemma_provision_run_stable(installed, guild, candidates.drop_first());
    assert forall|i: int|
        0 <= i < candidates.len() implies #[trigger] run_id(m, guild, candidates, i)
        == candidates[0] by {
        if i == 0 {
            assert(candidates.take(0) =~= Seq::<u64>::empty());
        } else {
            let t = candidates.take(i);
            assert(t[0] == candidates[0]);
            lemma_provision_run_stable(installed, guild, t.drop_first());
            assert(provision_run(m, guild, t) == installed);
        }
    }
}

} // verus!
