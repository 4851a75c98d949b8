//! Per-member reconciliation: from an observed member state and a
//! verification status to the minimal set of mutations that converges the
//! member to the desired state.

use vstd::prelude::*;

verus! {

/// The reserved glyph appended to a verified member's display name.
pub const MARKER: char = '✓';

/// The character that replaces an impersonated marker glyph inside a name.
pub const MARKER_SUBSTITUTE: char = '_';

/// A member's state as last observed on the platform.
pub struct MemberState {
    /// The user the membership belongs to (guild-independent).
    pub user_id: u64,
    /// The guild the membership lives in.
    pub guild_id: u64,
    /// The member's current display name.
    pub display_name: Vec<char>,
    /// The role ids the member currently holds.
    pub roles: Vec<u64>,
}

/// The mutations a single reconciliation asks the platform to perform.
pub struct Plan {
    /// A role id to grant the member, if any.
    pub add_role: Option<u64>,
    /// A new display name to set, if any.
    pub rename_to: Option<Vec<char>>,
}

/// A marker glyph is replaced by the substitute; every other character stays.
pub open spec fn clean_char(c: char) -> char {
    if c == MARKER {
        MARKER_SUBSTITUTE
    } else {
        c
    }
}

/// The display name with every marker glyph replaced by the substitute.
pub open spec fn cleaned_of(name: Seq<char>) -> Seq<char> {
    name.map_values(|c: char| clean_char(c))
}

/// Whether the display name already ends with the marker glyph.
pub open spec fn ends_with_marker(name: Seq<char>) -> bool {
    name.len() > 0 && name.last() == MARKER
}

/// The suffix appended to a verified member's cleaned name.
pub open spec fn marker_suffix() -> Seq<char> {
    seq![' ', MARKER]
}

/// The cleaned name with the authoritative marker suffix appended.
pub open spec fn with_marker(name: Seq<char>) -> Seq<char> {
    cleaned_of(name) + marker_suffix()
}

/// The rename a reconciliation issues, if any: a verified member whose name
/// already ends with the marker keeps it untouched; otherwise a verified
/// member gets the cleaned name with the marker suffix, and an unverified
/// member gets the cleaned name exactly when cleaning changed something.
pub open spec fn desired_rename(name: Seq<char>, verified: bool) -> Option<Seq<char>> {
    if verified {
        if ends_with_marker(name) {
            None
        } else {
            Some(with_marker(name))
        }
    } else {
        if cleaned_of(name) == name {
            None
        } else {
            Some(cleaned_of(name))
        }
    }
}

/// The role grant a reconciliation issues, if any: the guild's verification
/// role, exactly when the member is verified and does not hold it yet.
pub open spec fn desired_role_add(roles: Seq<u64>, verified: bool, verified_role: u64) -> Option<
    u64,
> {
    if verified && !roles.contains(verified_role) {
        Some(verified_role)
    } else {
        None
    }
}

/// The rename a plan carries, as a sequence.
pub open spec fn rename_view(p: Plan) -> Option<Seq<char>> {
    match p.rename_to {
        Some(n) => Some(n@),
        None => None,
    }
}

/// Whether a plan is correct for a member observed in the given state.
pub open spec fn plan_matches(
    p: Plan,
    name: Seq<char>,
    roles: Seq<u64>,
    verified: bool,
    verified_role: u64,
) -> bool {
    &&& p.add_role == desired_role_add(roles, verified, verified_role)
    &&& rename_view(p) == desired_rename(name, verified)
}

/// The display name after the platform performed the rename, if one was asked.
pub open spec fn apply_rename(name: Seq<char>, rename: Option<Seq<char>>) -> Seq<char> {
    match rename {
        Some(n) => n,
        None => name,
    }
}

/// The role set after the platform performed the grant, if one was asked.
pub open spec fn apply_role_add(roles: Seq<u64>, add: Option<u64>) -> Seq<u64> {
    match add {
        Some(r) => roles.push(r),
        None => roles,
    }
}

/// How many marker glyphs a display name carries.
pub open spec fn marker_count(name: Seq<char>) -> nat
    decreases name.len(),
{
    if name.len() == 0 {
        0
    } else {
        marker_count(name.drop_last()) + if name.last() == MARKER {
            1nat
        } else {
            0nat
        }
    }
}

/// Cleaning a name twice is the same as cleaning it once.
pub proof fn lemma_cleaned_idempotent(name: Seq<char>)
    ensures
        cleaned_of(cleaned_of(name)) == cleaned_of(name),
{
    assert(cleaned_of(cleaned_of(name)) =~= cleaned_of(name));
}

/// A cleaned name carries no marker glyph at all.
pub proof fn lemma_cleaned_no_marker(name: Seq<char>)
    ensures
        marker_count(cleaned_of(name)) == 0,
    decreases name.len(),
{
    if name.len() == 0 {
    } else {
        lemma_cleaned_no_marker(name.drop_last());
        assert(cleaned_of(name).drop_last() =~= cleaned_of(name.drop_last()));
        assert(cleaned_of(name).last() == clean_char(name.last()));
    }
}

/// Appending the marker suffix adds exactly one marker glyph.
pub proof fn lemma_marker_count_suffix(s: Seq<char>)
    ensures
        marker_count(s + marker_suffix()) == marker_count(s) + 1,
{
    let t = s + marker_suffix();
    assert(t.len() == s.len() + 2);
    assert(t.last() == MARKER);
    assert(t.drop_last() =~= s + seq![' ']);
    assert(marker_count(t) == marker_count(s + seq![' ']) + 1);
    assert((s + seq![' ']).last() == ' ');
    assert((s + seq![' ']).drop_last() =~= s);
    assert(marker_count(s + seq![' ']) == marker_count(s));
}

/// Idempotence: once the platform has applied a reconciliation's mutations,
/// reconciling the resulting state again, under the same verification
/// status, issues no mutation at all.
pub proof fn lemma_reconcile_idempotent(
    name: Seq<char>,
    roles: Seq<u64>,
    verified: bool,
    verified_role: u64,
)
    ensures
        ({
            let once_name = apply_rename(name, desired_rename(name, verified));
            let once_roles = apply_role_add(roles, desired_role_add(roles, verified, verified_role));
            &&& desired_rename(once_name, verified) is None
            &&& desired_role_add(once_roles, verified, verified_role) is None
        }),
{
    if verified && !roles.contains(verified_role) {
        assert(roles.push(verified_role)[roles.len() as int] == verified_role);
    }
    if verified {
        if !ends_with_marker(name) {
            assert(with_marker(name).last() == MARKER);
        }
    } else {
        lemma_cleaned_idempotent(name);
    }
}

/// Marker uniqueness: reconciling a verified member leaves a display name
/// that carries exactly one marker glyph, and as its trailing character. A
/// name that already ends with the marker is deliberately left untouched, so
/// the law asks that such a name carry no further embedded marker.
pub proof fn lemma_marker_unique(name: Seq<char>)
    requires
        ends_with_marker(name) ==> marker_count(name) == 1,
    ensures
        ({
            let converged = apply_rename(name, desired_rename(name, true));
            &&& marker_count(converged) == 1
            &&& ends_with_marker(converged)
        }),
{
    if !ends_with_marker(name) {
        lemma_cleaned_no_marker(name);
        lemma_marker_count_suffix(cleaned_of(name));
        assert(with_marker(name).last() == MARKER);
    }
}

/// Convergence: a completed reconciliation of a verified member leaves the
/// guild's verification role in the member's role set.
pub proof fn lemma_verified_member_holds_role(roles: Seq<u64>, verified_role: u64)
    ensures
        apply_role_add(roles, desired_role_add(roles, true, verified_role)).contains(verified_role),
{
    if !roles.contains(verified_role) {
        assert(roles.push(verified_role)[roles.len() as int] == verified_role);
    }
}

/// One-way verification: reconciling an unverified member grants no role and
/// adds no marker glyph; at most it strips impersonated ones.
pub proof fn lemma_unverified_adds_nothing(name: Seq<char>, roles: Seq<u64>, verified_role: u64)
    ensures
        desired_role_add(roles, false, verified_role) is None,
        marker_count(apply_rename(name, desired_rename(name, false))) <= marker_count(name),
{
    if cleaned_of(name) != name {
        lemma_cleaned_no_marker(name);
    }
}

/// The display name with every marker glyph replaced by the substitute.
fn clean_name(name: &Vec<char>) -> (r: Vec<char>)
    ensures
        r@ == cleaned_of(name@),
{
    let mut out: Vec<char> = Vec::new();
    let mut i: usize = 0;
    while i < name.len()
        invariant
            i <= name.len(),
            out@.len() == i,
            forall|j: int| 0 <= j < i ==> out@[j] == clean_char(name@[j]),
        decreases name.len() - i,
    {
        let c = name[i];
        if c == MARKER {
            out.push(MARKER_SUBSTITUTE);
        } else {
            out.push(c);
        }
        i = i + 1;
    }
    proof {
        assert(out@ =~= cleaned_of(name@));
    }
    out
}

/// Whether the display name already ends with the marker glyph.
fn name_ends_with_marker(name: &Vec<char>) -> (r: bool)
    ensures
        r == ends_with_marker(name@),
{
    if name.len() == 0 {
        false
    } else {
        name[name.len() - 1] == MARKER
    }
}

/// Whether a role list carries the given id.
pub(crate) fn roles_contain(roles: &Vec<u64>, role: u64) -> (r: bool)
    ensures
        r == roles@.contains(role),
{
    let mut i: usize = 0;
    while i < roles.len()
        invariant
            i <= roles.len(),
            forall|j: int| 0 <= j < i ==> roles@[j] != role,
        decreases roles.len() - i,
    {
        if roles[i] == role {
            return true;
        }
        i = i + 1;
    }
    false
}

/// Whether two character sequences are equal character for character.
pub(crate) fn chars_equal(a: &Vec<char>, b: &Vec<char>) -> (r: bool)
    ensures
        r == (a@ == b@),
{
    if a.len() != b.len() {
        return false;
    }
    let mut i: usize = 0;
    while i < a.len()
        invariant
            i <= a.len(),
            a@.len() == b@.len(),
            forall|j: int| 0 <= j < i ==> a@[j] == b@[j],
        decreases a.len() - i,
    {
        if a[i] != b[i] {
            return false;
        }
        i = i + 1;
    }
    proof {
        assert(a@ =~= b@);
    }
    true
}

/// One reconciliation step: from the member's observed state and their
/// verification status to the mutations that converge them, per the desired
/// rename and role-grant rules. Issues nothing for an already-converged
/// member.
pub fn reconcile(member: &MemberState, verified: bool, verified_role: u64) -> (p: Plan)
    ensures
        plan_matches(p, member.display_name@, member.roles@, verified, verified_role),
{
    let add_role = if verified && !roles_contain(&member.roles, verified_role) {
        Some(verified_role)
    } else {
        None
    };
    let rename_to = if verified {
        if name_ends_with_marker(&member.display_name) {
            None
        } else {
            let mut cleaned = clean_name(&member.display_name);
            cleaned.push(' ');
            cleaned.push(MARKER);
            proof {
                assert(cleaned@ =~= with_marker(member.display_name@));
            }
            Some(cleaned)
        }
    } else {
        let cleaned = clean_name(&member.display_name);
        if chars_equal(&cleaned, &member.display_name) {
            None
        } else {
            Some(cleaned)
        }
    };
    Plan { add_role, rename_to }
}

/// Whether executing the plan performs any platform mutation: the value a
/// completed reconciliation reports to its caller.
pub fn plan_mutates(p: &Plan) -> (r: bool)
    ensures
        r == (p.add_role is Some || p.rename_to is Some),
{
    p.add_role.is_some() || p.rename_to.is_some()
}

/// The member state the platform reports back once the plan's mutations have
/// been applied: the model against which re-reconciliation is judged.
pub fn apply_plan(member: &MemberState, p: &Plan) -> (m: MemberState)
    ensures
        m.user_id == member.user_id,
        m.guild_id == member.guild_id,
        m.display_name@ == apply_rename(member.display_name@, rename_view(*p)),
        m.roles@ == apply_role_add(member.roles@, p.add_role),
{
    let display_name = match &p.rename_to {
        Some(n) => clone_chars(n),
        None => clone_chars(&member.display_name),
    };
    let mut roles = clone_ids(&member.roles);
    match p.add_role {
        Some(r) => roles.push(r),
        None => (),
    }
    MemberState { user_id: member.user_id, guild_id: member.guild_id, display_name, roles }
}

/// A character-for-character copy of a display name.
fn clone_chars(v: &Vec<char>) -> (r: Vec<char>)
    ensures
        r@ == v@,
{
    let mut out: Vec<char> = Vec::new();
    let mut i: usize = 0;
    while i < v.len()
        invariant
            i <= v.len(),
            out@ == v@.take(i as int),
        decreases v.len() - i,
    {
        out.push(v[i]);
        i = i + 1;
        proof {
            assert(out@ =~= v@.take(i as int));
        }
    }
    proof {
        assert(v@.take(v@.len() as int) =~= v@);
    }
    out
}

/// An element-for-element copy of a role list.
fn clone_ids(v: &Vec<u64>) -> (r: Vec<u64>)
    ensures
        r@ == v@,
{
    let mut out: Vec<u64> = Vec::new();
    let mut i: usize = 0;
    while i < v.len()
        invariant
            i <= v.len(),
            out@ == v@.take(i as int),
        decreases v.len() - i,
    {
        out.push(v[i]);
        i = i + 1;
        proof {
            assert(out@ =~= v@.take(i as int));
        }
    }
    proof {
        assert(v@.take(v@.len() as int) =~= v@);
    }
    out
}

} // verus!
