use mscoree_safe::interfaces::{Guid, IntfCtr, SupportedInterfaces};
use mscoree_safe::runtime_info::{native_flag, RuntimeInfoImpl};
use mscoree_safe::version::RuntimeVersion;

fn wide(s: &str) -> Vec<u16> {
    let mut v: Vec<u16> = s.encode_utf16().collect();
    v.push(0);
    v
}

#[test]
fn native_true_is_negative() {
    assert!(native_flag(-1));
    assert!(native_flag(i32::MIN));
    assert!(!native_flag(0));
    assert!(!native_flag(1));
    assert!(!native_flag(i32::MAX));
}

#[test]
fn fresh_runtime_has_nothing_memoized() {
    let ri = RuntimeInfoImpl::new(7u32, RuntimeVersion::V4);
    assert_eq!(*ri.native(), 7);
    assert_eq!(ri.cached_loaded(), None);
    assert_eq!(ri.cached_loadable(), None);
    assert_eq!(ri.cached_started(), None);
    assert_eq!(ri.cached_version(), Some(RuntimeVersion::V4));
    assert_eq!(ri.current_version(), RuntimeVersion::V4);
}

#[test]
fn loaded_is_memoized() {
    let mut ri = RuntimeInfoImpl::new((), RuntimeVersion::V2);
    assert!(ri.loaded(-1));
    assert_eq!(ri.cached_loaded(), Some(true));
    assert!(ri.loaded(1));
    assert_eq!(ri.cached_loadable(), None);
}

#[test]
fn loadable_is_memoized() {
    let mut ri = RuntimeInfoImpl::new((), RuntimeVersion::V2);
    assert!(!ri.loadable(1));
    assert!(!ri.loadable(-1));
    assert_eq!(ri.cached_loadable(), Some(false));
}

#[test]
fn started_positive_is_false() {
    let mut ri = RuntimeInfoImpl::new((), RuntimeVersion::V2);
    assert!(!ri.started(1));
    assert_eq!(ri.cached_started(), Some(false));
    let mut other = RuntimeInfoImpl::new((), RuntimeVersion::V2);
    assert!(other.started(-5));
    assert!(other.started(0));
}

#[test]
fn unknown_version_settles_on_reply() {
    let mut ri = RuntimeInfoImpl::new((), RuntimeVersion::Unknown(String::new()));
    assert_eq!(ri.cached_version(), None);
    assert_eq!(ri.settle_version(None), RuntimeVersion::Unknown(String::new()));
    assert_eq!(ri.settle_version(Some(wide("v2.0.50727"))), RuntimeVersion::V2);
    assert_eq!(ri.cached_version(), Some(RuntimeVersion::V2));
    assert_eq!(ri.settle_version(Some(wide("v4.0.30319"))), RuntimeVersion::V2);
}

#[test]
fn unknown_reply_stays_unknown() {
    let mut ri = RuntimeInfoImpl::new((), RuntimeVersion::Unknown(String::new()));
    assert_eq!(
        ri.settle_version(Some(wide("v9.9"))),
        RuntimeVersion::Unknown(String::from("v9.9"))
    );
    assert_eq!(ri.settle_version(Some(wide("v3.0"))), RuntimeVersion::V3);
}

#[test]
fn load_library_changes_nothing() {
    let mut ri = RuntimeInfoImpl::new(3u8, RuntimeVersion::V4);
    ri.load_library("mscorlib.dll");
    assert_eq!(ri.cached_loaded(), None);
    assert_eq!(ri.current_version(), RuntimeVersion::V4);
    assert_eq!(*ri.native(), 3);
}

#[test]
fn interface_identifiers() {
    assert_eq!(
        SupportedInterfaces::CorRuntimeHost.clsid(),
        Guid { data1: 0xCB2F6723, data2: 0xAB3A, data3: 0x11D2, data4: [0x9C, 0x40, 0x00, 0xC0, 0x4F, 0xA3, 0x0A, 0x3E] }
    );
    assert_eq!(
        SupportedInterfaces::CorRuntimeHost.iid(),
        Guid { data1: 0xCB2F6722, data2: 0xAB3A, data3: 0x11D2, data4: [0x9C, 0x40, 0x00, 0xC0, 0x4F, 0xA3, 0x0A, 0x3E] }
    );
    assert_eq!(SupportedInterfaces::CLRRuntimeHost.clsid().data1, 0x90F1A06E);
    assert_eq!(SupportedInterfaces::CLRRuntimeHost.iid().data1, 0x90F1A06C);
    assert_eq!(SupportedInterfaces::TypeNameFactory.clsid().data4[7], 0x25);
    assert_eq!(SupportedInterfaces::TypeNameFactory.iid().data4[7], 0x21);
}

#[test]
fn interface_container_keeps_kind() {
    let c = IntfCtr::new(42usize, SupportedInterfaces::TypeNameFactory);
    assert_eq!(c.kind(), SupportedInterfaces::TypeNameFactory);
    assert_eq!(*c.inner(), 42);
}
