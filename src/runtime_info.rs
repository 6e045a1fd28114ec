use vstd::prelude::*;

use crate::version::{parse_version, utf16_lossy, version_from_wide, wide_text, RuntimeVersion, VersionView};

verus! {

/// Whether a native boolean reply means "true": the hosting API reports true
/// as a negative value, not merely a nonzero one.
pub fn native_flag(value: i32) -> (r: bool)
    ensures
        r == (value < 0),
{
    value < 0
}

/// The memoized state of one runtime.
pub struct RuntimeState {
    pub version: VersionView,
    pub loaded: Option<bool>,
    pub loadable: Option<bool>,
    pub started: Option<bool>,
}

/// The value a memoized flag takes: the cached one where there is one,
/// otherwise what the native reply says.
pub open spec fn settled(cached: Option<bool>, reply: i32) -> bool {
    match cached {
        Some(b) => b,
        None => reply < 0,
    }
}

/// The version a runtime settles on: a known version stays; otherwise a
/// successful native reply is parsed, and a failed one changes nothing.
pub open spec fn settled_version(current: VersionView, reply: Option<Vec<u16>>) -> VersionView {
    if !(current is Unknown) {
        current
    } else {
        match reply {
            Some(units) => parse_version(utf16_lossy(wide_text(units@))),
            None => current,
        }
    }
}

/// One installed runtime: the native object `P` that answers its queries,
/// and the answers that have been memoized so far.
pub struct RuntimeInfoImpl<P> {
    inner: P,
    version: RuntimeVersion,
    loaded: Option<bool>,
    loadable: Option<bool>,
    started: Option<bool>,
}

impl<P> View for RuntimeInfoImpl<P> {
    type V = RuntimeState;

    closed spec fn view(&self) -> RuntimeState {
        RuntimeState {
            version: self.version@,
            loaded: self.loaded,
            loadable: self.loadable,
            started: self.started,
        }
    }
}

fn settle_flag(cache: &mut Option<bool>, reply: i32) -> (r: bool)
    ensures
        r == settled(*old(cache), reply),
        *final(cache) == Some(r),
{
    match *cache {
        Some(b) => b,
        None => {
            let b = native_flag(reply);
            *cache = Some(b);
            b
        },
    }
}

impl<P> RuntimeInfoImpl<P> {
    pub closed spec fn spec_native(&self) -> P {
        self.inner
    }

    /// A runtime with nothing memoized but its version.
    pub fn new(inner: P, version: RuntimeVersion) -> (r: RuntimeInfoImpl<P>)
        ensures
            r.spec_native() == inner,
            r@ == (RuntimeState { version: version@, loaded: None, loadable: None, started: None }),
    {
        RuntimeInfoImpl { inner, version, loaded: None, loadable: None, started: None }
    }

    /// The native object of this runtime.
    pub fn native(&self) -> (r: &P)
        ensures
            *r == self.spec_native(),
    {
        &self.inner
    }

    /// The version as memoized so far.
    pub fn current_version(&self) -> (r: RuntimeVersion)
        ensures
            r@ == self@.version,
    {
        self.version.duplicate()
    }

    /// The memoized version, where it is one of the known versions; `None`
    /// where the native object has to be asked.
    pub fn cached_version(&self) -> (r: Option<RuntimeVersion>)
        ensures
            r is Some <==> !(self@.version is Unknown),
            r is Some ==> r->0@ == self@.version,
    {
        if self.version.is_known() {
            Some(self.version.duplicate())
        } else {
            None
        }
    }

    /// Settles the version on the native reply to the version query (the
    /// UTF-16 version string, or `None` where the query failed) and returns
    /// it. A known version is kept whatever the reply.
    pub fn settle_version(&mut self, reply: Option<Vec<u16>>) -> (r: RuntimeVersion)
        ensures
            r@ == final(self)@.version,
            final(self)@ == (RuntimeState {
                version: settled_version(old(self)@.version, reply),
                ..old(self)@
            }),
            final(self).spec_native() == old(self).spec_native(),
    {
        if !self.version.is_known() {
            match reply {
                Some(units) => {
                    self.version = version_from_wide(&units);
                },
                None => {},
            }
        }
        self.version.duplicate()
    }

    /// The memoized answer to "is this runtime loaded in this process".
    pub fn cached_loaded(&self) -> (r: Option<bool>)
        ensures
            r == self@.loaded,
    {
        self.loaded
    }

    /// The memoized answer to "can this runtime be loaded".
    pub fn cached_loadable(&self) -> (r: Option<bool>)
        ensures
            r == self@.loadable,
    {
        self.loadable
    }

    /// The memoized answer to "has this runtime been started".
    pub fn cached_started(&self) -> (r: Option<bool>)
        ensures
            r == self@.started,
    {
        self.started
    }

    /// Settles the loaded flag on the native boolean `reply`, unless it is
    /// memoized already, and returns it.
    pub fn loaded(&mut self, reply: i32) -> (r: bool)
        ensures
            r == settled(old(self)@.loaded, reply),
            final(self)@ == (RuntimeState { loaded: Some(r), ..old(self)@ }),
            final(self).spec_native() == old(self).spec_native(),
    {
        settle_flag(&mut self.loaded, reply)
    }

    /// Settles the loadable flag on the native boolean `reply`, unless it is
    /// memoized already, and returns it.
    pub fn loadable(&mut self, reply: i32) -> (r: bool)
        ensures
            r == settled(old(self)@.loadable, reply),
            final(self)@ == (RuntimeState { loadable: Some(r), ..old(self)@ }),
            final(self).spec_native() == old(self).spec_native(),
    {
        settle_flag(&mut self.loadable, reply)
    }

    /// Settles the started flag on the native boolean `reply`, unless it is
    /// memoized already, and returns it.
    pub fn started(&mut self, reply: i32) -> (r: bool)
        ensures
            r == settled(old(self)@.started, reply),
            final(self)@ == (RuntimeState { started: Some(r), ..old(self)@ }),
            final(self).spec_native() == old(self).spec_native(),
    {
        settle_flag(&mut self.started, reply)
    }

    /// Loading a library through the runtime is not provided: the hosting
    /// contract does not say what it should do, so this changes nothing.
    pub fn load_library(&mut self, dll_name: &str)
        ensures
            *final(self) == *old(self),
    {
    }
}

} // verus!
