use utv_bot::cache::{verification_role_attributes, RoleCache, RoleResolution};

fn fresh_cache() -> RoleCache {
    let db = sled::Config::new().temporary(true).open().expect("opening a temporary tree");
    RoleCache::new(db)
}

const GUILD: u64 = 42;

#[test]
fn unseen_guild_has_no_cached_role() {
    let cache = fresh_cache();
    assert_eq!(cache.cached_role(GUILD), Ok(None));
}

#[test]
fn recorded_role_is_cached() {
    let mut cache = fresh_cache();
    assert_eq!(cache.record_role(GUILD, None, 111), Ok(111));
    assert_eq!(cache.cached_role(GUILD), Ok(Some(111)));
}

#[test]
fn second_recording_converges_on_the_winner() {
    let mut cache = fresh_cache();
    assert_eq!(cache.record_role(GUILD, None, 111), Ok(111));
    assert_eq!(cache.record_role(GUILD, None, 222), Ok(111));
    assert_eq!(cache.cached_role(GUILD), Ok(Some(111)));
}

#[test]
fn many_recordings_converge_on_the_first() {
    let mut cache = fresh_cache();
    assert_eq!(cache.record_role(GUILD, None, 100), Ok(100));
    for candidate in [7, 100, 9000, 42] {
        assert_eq!(cache.record_role(GUILD, None, candidate), Ok(100));
    }
    assert_eq!(cache.cached_role(GUILD), Ok(Some(100)));
}

#[test]
fn guilds_are_cached_independently() {
    let mut cache = fresh_cache();
    assert_eq!(cache.record_role(1, None, 111), Ok(111));
    assert_eq!(cache.record_role(2, None, 222), Ok(222));
    assert_eq!(cache.cached_role(1), Ok(Some(111)));
    assert_eq!(cache.cached_role(2), Ok(Some(222)));
}

#[test]
fn unseen_guild_needs_creation() {
    let cache = fresh_cache();
    assert_eq!(cache.resolve_role(GUILD, &vec![5, 6]), Ok(RoleResolution::NeedsCreation));
}

#[test]
fn cached_and_present_role_is_reused() {
    let mut cache = fresh_cache();
    cache.record_role(GUILD, None, 111).unwrap();
    assert_eq!(cache.resolve_role(GUILD, &vec![5, 111, 6]), Ok(RoleResolution::Existing(111)));
}

#[test]
fn stale_cached_role_asks_for_reprovisioning() {
    let mut cache = fresh_cache();
    cache.record_role(GUILD, None, 111).unwrap();
    assert_eq!(cache.resolve_role(GUILD, &vec![5, 6]), Ok(RoleResolution::NeedsCreation));
}

#[test]
fn stale_binding_is_replaced_atomically() {
    let mut cache = fresh_cache();
    cache.record_role(GUILD, None, 111).unwrap();
    assert_eq!(cache.record_role(GUILD, Some(111), 333), Ok(333));
    assert_eq!(cache.cached_role(GUILD), Ok(Some(333)));
}

#[test]
fn provisioned_roles_carry_the_fixed_attributes() {
    let attributes = verification_role_attributes();
    let name: String = attributes.name.iter().collect();
    assert_eq!(name, "UTexas Verified");
    assert_eq!(attributes.colour, 0xbf5700);
    assert!(attributes.hoisted);
    assert!(attributes.mentionable);
}

#[test]
fn recording_against_a_changed_binding_returns_the_current_one() {
    let mut cache = fresh_cache();
    cache.record_role(GUILD, None, 111).unwrap();
    assert_eq!(cache.record_role(GUILD, Some(999), 333), Ok(111));
    assert_eq!(cache.cached_role(GUILD), Ok(Some(111)));
}
