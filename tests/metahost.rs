use mscoree_safe::metahost::{HostError, MetaHostImpl};
use mscoree_safe::runtime_info::RuntimeInfoImpl;
use mscoree_safe::version::RuntimeVersion;

fn catalog() -> MetaHostImpl<u8, u32> {
    MetaHostImpl::new(0, Some(9u8)).unwrap()
}

#[test]
fn construction_needs_success_and_object() {
    let ok: Result<MetaHostImpl<u8, u32>, HostError> = MetaHostImpl::new(0, Some(1u8));
    let c = ok.unwrap();
    assert_eq!(*c.native(), 1);
    assert!(c.runtimes_pending());
    assert!(c.loaded_runtimes_pending());
}

#[test]
fn construction_failure_gives_no_catalog() {
    let failed: Result<MetaHostImpl<u8, u32>, HostError> = MetaHostImpl::new(-2147467259, Some(1u8));
    assert_eq!(failed.err(), Some(HostError::Status(-2147467259)));
    let null: Result<MetaHostImpl<u8, u32>, HostError> = MetaHostImpl::new(0, None);
    assert_eq!(null.err(), Some(HostError::NullObject));
    let both: Result<MetaHostImpl<u8, u32>, HostError> = MetaHostImpl::new(5, None);
    assert_eq!(both.err(), Some(HostError::Status(5)));
}

#[test]
fn same_version_gives_same_handle() {
    let mut c = catalog();
    assert_eq!(c.runtime(&RuntimeVersion::V4), None);
    let h = c.adopt_runtime(RuntimeVersion::V4, 0, Some(40)).unwrap();
    assert_eq!(c.runtime(&RuntimeVersion::V4), Some(h));
    assert_eq!(c.runtime(&RuntimeVersion::V4), Some(h));
    let again = c.adopt_runtime(RuntimeVersion::V4, 0, Some(41)).unwrap();
    assert_eq!(again, h);
    assert_eq!(*c.runtime_info(h).native(), 40);
}

#[test]
fn failed_lookup_changes_nothing() {
    let mut c = catalog();
    assert_eq!(c.adopt_runtime(RuntimeVersion::V2, -3, Some(1)), Err(HostError::Status(-3)));
    assert_eq!(c.adopt_runtime(RuntimeVersion::V2, 0, None), Err(HostError::NullObject));
    assert_eq!(c.runtime(&RuntimeVersion::V2), None);
    assert!(c.runtimes_pending());
}

#[test]
fn cached_version_needs_no_lookup() {
    let mut c = catalog();
    let h = c.adopt_runtime(RuntimeVersion::V2, 0, Some(2)).unwrap();
    assert_eq!(c.adopt_runtime(RuntimeVersion::V2, -3, None), Ok(h));
}

#[test]
fn handle_reaches_memoized_state() {
    let mut c = catalog();
    let h = c.adopt_runtime(RuntimeVersion::V3, 0, Some(3)).unwrap();
    assert!(c.settle_loaded(h, -1));
    assert!(c.settle_loaded(h, 1));
    assert_eq!(c.runtime_info(h).cached_loaded(), Some(true));
    assert!(!c.settle_loadable(h, 0));
    assert_eq!(c.runtime_info(h).cached_loadable(), Some(false));
    assert!(c.settle_started(h, -7));
    assert_eq!(c.runtime_info(h).cached_started(), Some(true));
    assert_eq!(c.runtime_info(h).current_version(), RuntimeVersion::V3);
}

#[test]
fn enumeration_keeps_last_of_each_version() {
    let mut c = catalog();
    let found = vec![
        RuntimeInfoImpl::new(1u32, RuntimeVersion::V2),
        RuntimeInfoImpl::new(2u32, RuntimeVersion::V4),
        RuntimeInfoImpl::new(3u32, RuntimeVersion::V2),
    ];
    c.install_runtimes(found);
    assert!(!c.runtimes_pending());
    let snap = c.runtimes();
    assert_eq!(snap.len(), 2);
    let h2 = c.runtime(&RuntimeVersion::V2).unwrap();
    let h4 = c.runtime(&RuntimeVersion::V4).unwrap();
    assert_eq!(*c.runtime_info(h2).native(), 3);
    assert_eq!(*c.runtime_info(h4).native(), 2);
    assert!(snap.contains(&(RuntimeVersion::V2, h2)));
    assert!(snap.contains(&(RuntimeVersion::V4, h4)));
}

#[test]
fn enumeration_is_cached() {
    let mut c = catalog();
    c.install_runtimes(vec![RuntimeInfoImpl::new(1u32, RuntimeVersion::V3)]);
    c.install_runtimes(vec![RuntimeInfoImpl::new(2u32, RuntimeVersion::V4)]);
    let snap = c.runtimes();
    assert_eq!(snap.len(), 1);
    assert_eq!(snap[0].0, RuntimeVersion::V3);
    assert_eq!(c.runtime(&RuntimeVersion::V4), None);
}

#[test]
fn empty_enumeration_is_cached() {
    let mut c = catalog();
    c.install_runtimes(Vec::new());
    assert!(!c.runtimes_pending());
    assert!(c.runtimes().is_empty());
    c.install_runtimes(vec![RuntimeInfoImpl::new(1u32, RuntimeVersion::V2)]);
    assert!(c.runtimes().is_empty());
}

#[test]
fn enumeration_after_lookup_lists_all() {
    let mut c = catalog();
    let h2 = c.adopt_runtime(RuntimeVersion::V2, 0, Some(20)).unwrap();
    assert!(c.runtimes_pending());
    c.install_runtimes(vec![
        RuntimeInfoImpl::new(1u32, RuntimeVersion::V2),
        RuntimeInfoImpl::new(2u32, RuntimeVersion::V4),
    ]);
    let snap = c.runtimes();
    assert_eq!(snap.len(), 2);
    assert_eq!(c.runtime(&RuntimeVersion::V2), Some(h2));
    assert_eq!(*c.runtime_info(h2).native(), 20);
    let h4 = c.runtime(&RuntimeVersion::V4).unwrap();
    assert_eq!(*c.runtime_info(h4).native(), 2);
    assert!(snap.contains(&(RuntimeVersion::V4, h4)));
}

#[test]
fn snapshot_keys_match_runtime_versions() {
    let mut c = catalog();
    c.install_runtimes(vec![
        RuntimeInfoImpl::new(1u32, RuntimeVersion::V3),
        RuntimeInfoImpl::new(2u32, RuntimeVersion::Unknown(String::new())),
    ]);
    for (v, h) in c.runtimes() {
        assert_eq!(c.runtime_info(h).current_version(), v);
    }
}

#[test]
fn loaded_table_covers_installed() {
    let mut c = catalog();
    c.install_runtimes(vec![
        RuntimeInfoImpl::new(1u32, RuntimeVersion::V2),
        RuntimeInfoImpl::new(2u32, RuntimeVersion::V4),
    ]);
    c.install_loaded(vec![RuntimeVersion::V4]);
    let mut table = c.loaded_runtimes();
    table.sort_by_key(|e| e.0.to_string());
    assert_eq!(table, vec![(RuntimeVersion::V2, false), (RuntimeVersion::V4, true)]);
    let snap = c.runtimes();
    assert_eq!(snap.len(), table.len());
}

#[test]
fn loaded_table_is_cached() {
    let mut c = catalog();
    c.install_runtimes(vec![RuntimeInfoImpl::new(1u32, RuntimeVersion::V2)]);
    c.install_loaded(vec![RuntimeVersion::V2, RuntimeVersion::V2]);
    assert_eq!(c.loaded_runtimes(), vec![(RuntimeVersion::V2, true)]);
    c.install_loaded(Vec::new());
    assert_eq!(c.loaded_runtimes(), vec![(RuntimeVersion::V2, true)]);
    assert!(!c.loaded_runtimes_pending());
}

#[test]
fn loaded_version_not_installed_is_left_out() {
    let mut c = catalog();
    c.install_runtimes(vec![RuntimeInfoImpl::new(1u32, RuntimeVersion::V2)]);
    c.install_loaded(vec![
        RuntimeVersion::Unknown(String::from("v5.0")),
        RuntimeVersion::Unknown(String::new()),
    ]);
    assert_eq!(c.loaded_runtimes(), vec![(RuntimeVersion::V2, false)]);
}

#[test]
fn loaded_table_made_before_enumeration_is_empty() {
    let mut c = catalog();
    assert!(c.loaded_runtimes_pending());
    c.install_loaded(vec![RuntimeVersion::V4]);
    assert!(!c.loaded_runtimes_pending());
    assert!(c.loaded_runtimes().is_empty());
}
