use vstd::prelude::*;

use crate::runtime_info::{settled, RuntimeInfoImpl, RuntimeState};
use crate::version::{RuntimeVersion, VersionView};

verus! {

/// Why a native request of the catalog failed.
#[derive(Clone, Copy, Debug, PartialEq, Eq, Structural, Hash)]
pub enum HostError {
    /// The native call reported this failure status.
    Status(i32),
    /// The native call reported success but handed out no object.
    NullObject,
}

/// The error for a native request that reported `status` and handed out no
/// usable object.
pub open spec fn host_error(status: i32) -> HostError {
    if status != 0 {
        HostError::Status(status)
    } else {
        HostError::NullObject
    }
}

fn make_error(status: i32) -> (r: HostError)
    ensures
        r == host_error(status),
{
    if status != 0 {
        HostError::Status(status)
    } else {
        HostError::NullObject
    }
}

/// The versions that a sequence of runtime versions stands for.
pub open spec fn views(s: Seq<RuntimeVersion>) -> Seq<VersionView> {
    s.map_values(|v: RuntimeVersion| v@)
}

/// Whether `j` is the last position in `found` of a runtime of version `v`.
pub open spec fn is_last_of<P>(found: Seq<RuntimeInfoImpl<P>>, j: int, v: VersionView) -> bool {
    &&& 0 <= j < found.len()
    &&& found[j]@.version == v
    &&& forall|k: int| j < k < found.len() ==> found[k]@.version != v
}

/// Whether the entry at `i` of a catalog with runtimes `entries` of versions
/// `installed` is the last runtime in `found` of its version, at a position
/// `from` or later.
pub open spec fn kept_from<P>(
    entries: Seq<RuntimeInfoImpl<P>>,
    installed: Seq<VersionView>,
    found: Seq<RuntimeInfoImpl<P>>,
    from: int,
    i: int,
) -> bool {
    exists|j: int| from <= j && is_last_of(found, j, installed[i]) && entries[i] == found[j]
}

/// Whether `keys` and `flags` make the table of loaded runtimes for the
/// installed versions `installed` and the loaded versions `loaded`: each
/// installed version once, and no other, marked true exactly where it is
/// loaded.
pub open spec fn is_loaded_table(
    keys: Seq<VersionView>,
    flags: Seq<bool>,
    installed: Seq<VersionView>,
    loaded: Seq<VersionView>,
) -> bool {
    &&& keys.no_duplicates()
    &&& flags.len() == keys.len()
    &&& forall|v: VersionView| #[trigger] keys.contains(v) <==> installed.contains(v)
    &&& forall|i: int| 0 <= i < keys.len() ==> flags[i] == loaded.contains(keys[i])
}

/// The versions of the runtimes in `found`.
pub open spec fn found_versions<P>(found: Seq<RuntimeInfoImpl<P>>) -> Seq<VersionView> {
    found.map_values(|e: RuntimeInfoImpl<P>| e@.version)
}

proof fn lemma_push_contains<T>(s: Seq<T>, x: T)
    ensures
        forall|y: T| #[trigger] s.push(x).contains(y) <==> s.contains(y) || y == x,
{
    assert forall|y: T| #[trigger] s.push(x).contains(y) <==> s.contains(y) || y == x by {
        if s.contains(y) {
            let j = choose|j: int| 0 <= j < s.len() && s[j] == y;
            assert(s.push(x)[j] == y);
        }
        if y == x {
            assert(s.push(x)[s.len() as int] == y);
        }
        if s.push(x).contains(y) {
            let j = choose|j: int| 0 <= j < s.len() + 1 && s.push(x)[j] == y;
            if j < s.len() {
                assert(s[j] == y);
            }
        }
    }
}

/// A non-owning reference to a runtime that a catalog holds.
#[derive(Clone, Copy, Debug, PartialEq, Eq, Structural, Hash)]
pub struct RuntimeHandle {
    index: usize,
}

impl RuntimeHandle {
    pub closed spec fn id(self) -> int {
        self.index as int
    }
}

/// The position of `v` in `keys`, if it is there.
fn find_version(keys: &Vec<RuntimeVersion>, v: &RuntimeVersion) -> (r: Option<usize>)
    ensures
        r is Some ==> r->0 < keys@.len() && keys@[r->0 as int]@ == v@,
        r is None ==> !views(keys@).contains(v@),
{
    let mut i: usize = 0;
    while i < keys.len()
        invariant
            0 <= i <= keys@.len(),
            forall|j: int| 0 <= j < i ==> keys@[j]@ != v@,
        decreases keys@.len() - i,
    {
        if keys[i] == *v {
            return Some(i);
        }
        i = i + 1;
    }
    assert(!views(keys@).contains(v@)) by {
        if views(keys@).contains(v@) {
            let j = choose|j: int| 0 <= j < views(keys@).len() && views(keys@)[j] == v@;
            assert(keys@[j]@ == v@);
        }
    }
    None
}

/// The catalog of installed runtimes: it owns one entry per runtime version
/// and hands out handles to them, and it memoizes which versions are loaded
/// in this process. `M` is the native factory object that answers its
/// queries, `P` the native object of one runtime.
pub struct MetaHostImpl<M, P> {
    inner: M,
    versions: Vec<RuntimeVersion>,
    runtimes: Vec<RuntimeInfoImpl<P>>,
    loaded_versions: Vec<RuntimeVersion>,
    loaded_flags: Vec<bool>,
    enumerated: bool,
    loaded_made: bool,
}

impl<M, P> MetaHostImpl<M, P> {
    pub closed spec fn spec_native(&self) -> M {
        self.inner
    }

    /// The versions of the runtimes held, in the order of their handles.
    pub closed spec fn installed(&self) -> Seq<VersionView> {
        views(self.versions@)
    }

    /// The runtimes held, in the order of their handles.
    pub closed spec fn entries(&self) -> Seq<RuntimeInfoImpl<P>> {
        self.runtimes@
    }

    /// The versions of the memoized loaded-runtime table.
    pub closed spec fn loaded_keys(&self) -> Seq<VersionView> {
        views(self.loaded_versions@)
    }

    /// The flags of the memoized loaded-runtime table, one per version.
    pub closed spec fn loaded_values(&self) -> Seq<bool> {
        self.loaded_flags@
    }

    /// Whether the installed runtimes have been enumerated.
    pub closed spec fn is_enumerated(&self) -> bool {
        self.enumerated
    }

    /// Whether the table of loaded runtimes has been made.
    pub closed spec fn is_loaded_made(&self) -> bool {
        self.loaded_made
    }

    /// The catalog's invariant: one entry per version, in both tables, and
    /// each runtime held under its own version.
    pub open spec fn wf(&self) -> bool {
        &&& self.entries().len() == self.installed().len()
        &&& self.installed().no_duplicates()
        &&& forall|i: int|
            0 <= i < self.installed().len() ==> (#[trigger] self.entries()[i])@.version
                == self.installed()[i]
        &&& self.loaded_values().len() == self.loaded_keys().len()
        &&& self.loaded_keys().no_duplicates()
    }

    /// Whether `h` refers to the runtime of version `v`.
    pub open spec fn refers(&self, h: RuntimeHandle, v: VersionView) -> bool {
        0 <= h.id() < self.installed().len() && self.installed()[h.id()] == v
    }

    /// A catalog over the native factory that the creation call handed out.
    /// It exists only where that call reported success (`status` zero) and
    /// handed out an object; otherwise the error says why.
    pub fn new(status: i32, created: Option<M>) -> (r: Result<MetaHostImpl<M, P>, HostError>)
        ensures
            r is Ok <==> status == 0 && created is Some,
            r is Err ==> r->Err_0 == host_error(status),
            r matches Ok(c) ==> {
                &&& c.wf()
                &&& created == Some(c.spec_native())
                &&& c.installed().len() == 0
                &&& c.loaded_keys().len() == 0
                &&& !c.is_enumerated()
                &&& !c.is_loaded_made()
            },
    {
        match created {
            Some(inner) => {
                if status == 0 {
                    Ok(MetaHostImpl {
                        inner,
                        versions: Vec::new(),
                        runtimes: Vec::new(),
                        loaded_versions: Vec::new(),
                        loaded_flags: Vec::new(),
                        enumerated: false,
                        loaded_made: false,
                    })
                } else {
                    Err(make_error(status))
                }
            },
            None => Err(make_error(status)),
        }
    }

    /// The native factory object.
    pub fn native(&self) -> (r: &M)
        ensures
            *r == self.spec_native(),
    {
        &self.inner
    }

    /// The handle of the runtime of `version`, where the catalog holds one.
    pub fn runtime(&self, version: &RuntimeVersion) -> (r: Option<RuntimeHandle>)
        requires
            self.wf(),
        ensures
            r is Some <==> self.installed().contains(version@),
            r matches Some(h) ==> self.refers(h, version@),
    {
        match find_version(&self.versions, version) {
            Some(i) => {
                assert(self.installed()[i as int] == version@);
                Some(RuntimeHandle { index: i })
            },
            None => None,
        }
    }

    /// Takes in the runtime of `version` that the native lookup for it
    /// handed out. Where the catalog holds that version already, its handle
    /// is returned and nothing changes. Otherwise the runtime is held where
    /// the lookup reported success (`status` zero) and handed out an object;
    /// where it did not, the error says why and nothing changes.
    pub fn adopt_runtime(&mut self, version: RuntimeVersion, status: i32, found: Option<P>) -> (r:
        Result<RuntimeHandle, HostError>)
        requires
            old(self).wf(),
        ensures
            final(self).wf(),
            r matches Ok(h) ==> final(self).refers(h, version@),
            old(self).installed().contains(version@) ==> {
                &&& r matches Ok(h) && old(self).refers(h, version@)
                &&& *final(self) == *old(self)
            },
            !old(self).installed().contains(version@) && status == 0 && found is Some ==> {
                &&& r matches Ok(h) && h.id() == old(self).installed().len()
                &&& final(self).installed() == old(self).installed().push(version@)
                &&& final(self).entries().len() == old(self).entries().len() + 1
                &&& final(self).entries().take(old(self).entries().len() as int) == old(self).entries()
                &&& final(self).entries().last()@.version == version@
                &&& final(self).entries().last()@.loaded is None
                &&& final(self).entries().last()@.loadable is None
                &&& final(self).entries().last()@.started is None
                &&& Some(final(self).entries().last().spec_native()) == found
                &&& final(self).loaded_keys() == old(self).loaded_keys()
                &&& final(self).loaded_values() == old(self).loaded_values()
                &&& final(self).is_enumerated() == old(self).is_enumerated()
                &&& final(self).is_loaded_made() == old(self).is_loaded_made()
                &&& final(self).spec_native() == old(self).spec_native()
            },
            !old(self).installed().contains(version@) && !(status == 0 && found is Some) ==> {
                &&& r == Err::<RuntimeHandle, HostError>(host_error(status))
                &&& *final(self) == *old(self)
            },
    {
        match find_version(&self.versions, &version) {
            Some(i) => {
                assert(self.installed()[i as int] == version@);
                Ok(RuntimeHandle { index: i })
            },
            None => {
                match found {
                    Some(inner) => {
                        if status == 0 {
                            let ghost old_self = *self;
                            let i = self.versions.len();
                            let v2 = version.duplicate();
                            self.versions.push(version);
                            self.runtimes.push(RuntimeInfoImpl::new(inner, v2));
                            proof {
                                assert(self.installed() =~= old_self.installed().push(version@));
                                assert(self.entries().take(old_self.entries().len() as int)
                                    =~= old_self.entries());
                                assert forall|a: int, b: int|
                                    0 <= a < b < self.installed().len() implies self.installed()[a]
                                    != self.installed()[b] by {
                                    if b == i as int {
                                        assert(old_self.installed().contains(
                                            old_self.installed()[a],
                                        ));
                                    }
                                }
                            }
                            Ok(RuntimeHandle { index: i })
                        } else {
                            Err(make_error(status))
                        }
                    },
                    None => Err(make_error(status)),
                }
            },
        }
    }
}

impl<M, P> MetaHostImpl<M, P> {
    /// The runtime that `h` refers to.
    pub fn runtime_info(&self, h: RuntimeHandle) -> (r: &RuntimeInfoImpl<P>)
        requires
            self.wf(),
            0 <= h.id() < self.installed().len(),
        ensures
            *r == self.entries()[h.id()],
    {
        &self.runtimes[h.index]
    }

    /// Settles the loaded flag of the runtime that `h` refers to on the native
    /// boolean `reply`, unless it is memoized already, and returns it.
    pub fn settle_loaded(&mut self, h: RuntimeHandle, reply: i32) -> (r: bool)
        requires
            old(self).wf(),
            0 <= h.id() < old(self).installed().len(),
        ensures
            final(self).wf(),
            r == settled(old(self).entries()[h.id()]@.loaded, reply),
            final(self).entries().len() == old(self).entries().len(),
            final(self).entries()[h.id()]@ == (RuntimeState {
                loaded: Some(r),
                ..old(self).entries()[h.id()]@
            }),
            final(self).entries()[h.id()].spec_native() == old(self).entries()[h.id()].spec_native(),
            forall|i: int|
                0 <= i < old(self).entries().len() && i != h.id() ==> #[trigger] final(self).entries()[i]
                    == old(self).entries()[i],
            final(self).installed() == old(self).installed(),
            final(self).loaded_keys() == old(self).loaded_keys(),
            final(self).loaded_values() == old(self).loaded_values(),
            final(self).spec_native() == old(self).spec_native(),
            final(self).is_enumerated() == old(self).is_enumerated(),
            final(self).is_loaded_made() == old(self).is_loaded_made(),
    {
        let e = &mut self.runtimes[h.index];
        e.loaded(reply)
    }

    /// Settles the loadable flag of the runtime that `h` refers to on the native
    /// boolean `reply`, unless it is memoized already, and returns it.
    pub fn settle_loadable(&mut self, h: RuntimeHandle, reply: i32) -> (r: bool)
        requires
            old(self).wf(),
            0 <= h.id() < old(self).installed().len(),
        ensures
            final(self).wf(),
            r == settled(old(self).entries()[h.id()]@.loadable, reply),
            final(self).entries().len() == old(self).entries().len(),
            final(self).entries()[h.id()]@ == (RuntimeState {
                loadable: Some(r),
                ..old(self).entries()[h.id()]@
            }),
            final(self).entries()[h.id()].spec_native() == old(self).entries()[h.id()].spec_native(),
            forall|i: int|
                0 <= i < old(self).entries().len() && i != h.id() ==> #[trigger] final(self).entries()[i]
                    == old(self).entries()[i],
            final(self).installed() == old(self).installed(),
            final(self).loaded_keys() == old(self).loaded_keys(),
            final(self).loaded_values() == old(self).loaded_values(),
            final(self).spec_native() == old(self).spec_native(),
            final(self).is_enumerated() == old(self).is_enumerated(),
            final(self).is_loaded_made() == old(self).is_loaded_made(),
    {
        let e = &mut self.runtimes[h.index];
        e.loadable(reply)
    }

    /// Settles the started flag of the runtime that `h` refers to on the native
    /// boolean `reply`, unless it is memoized already, and returns it.
    pub fn settle_started(&mut self, h: RuntimeHandle, reply: i32) -> (r: bool)
        requires
            old(self).wf(),
            0 <= h.id() < old(self).installed().len(),
        ensures
            final(self).wf(),
            r == settled(old(self).entries()[h.id()]@.started, reply),
            final(self).entries().len() == old(self).entries().len(),
            final(self).entries()[h.id()]@ == (RuntimeState {
                started: Some(r),
                ..old(self).entries()[h.id()]@
            }),
            final(self).entries()[h.id()].spec_native() == old(self).entries()[h.id()].spec_native(),
            forall|i: int|
                0 <= i < old(self).entries().len() && i != h.id() ==> #[trigger] final(self).entries()[i]
                    == old(self).entries()[i],
            final(self).installed() == old(self).installed(),
            final(self).loaded_keys() == old(self).loaded_keys(),
            final(self).loaded_values() == old(self).loaded_values(),
            final(self).spec_native() == old(self).spec_native(),
            final(self).is_enumerated() == old(self).is_enumerated(),
            final(self).is_loaded_made() == old(self).is_loaded_made(),
    {
        let e = &mut self.runtimes[h.index];
        e.started(reply)
    }

    /// Whether the installed runtimes are still to be enumerated.
    pub fn runtimes_pending(&self) -> (r: bool)
        ensures
            r == !self.is_enumerated(),
    {
        !self.enumerated
    }

    /// Takes in the runtimes that the first native enumeration of installed
    /// runtimes handed out, each keyed by its memoized version. The runtimes
    /// held already stay as they are, under the same handles; of each other
    /// version the last runtime in `found` is added. Once the catalog has
    /// been enumerated, it keeps itself and drops `found`.
    pub fn install_runtimes(&mut self, found: Vec<RuntimeInfoImpl<P>>)
        requires
            old(self).wf(),
        ensures
            final(self).wf(),
            old(self).is_enumerated() ==> *final(self) == *old(self),
            !old(self).is_enumerated() ==> {
                &&& final(self).is_enumerated()
                &&& final(self).installed().len() >= old(self).installed().len()
                &&& final(self).installed().take(old(self).installed().len() as int)
                    == old(self).installed()
                &&& final(self).entries().take(old(self).entries().len() as int)
                    == old(self).entries()
                &&& forall|v: VersionView| #[trigger]
                    final(self).installed().contains(v) <==> old(self).installed().contains(v)
                        || found_versions(found@).contains(v)
                &&& forall|i: int|
                    old(self).installed().len() <= i < final(self).installed().len()
                        ==> #[trigger] kept_from(
                        final(self).entries(),
                        final(self).installed(),
                        found@,
                        0,
                        i,
                    )
                &&& final(self).loaded_keys() == old(self).loaded_keys()
                &&& final(self).loaded_values() == old(self).loaded_values()
                &&& final(self).is_loaded_made() == old(self).is_loaded_made()
                &&& final(self).spec_native() == old(self).spec_native()
            },
    {
        if self.enumerated {
            return;
        }
        self.enumerated = true;
        let ghost n0 = self.installed().len();
        let ghost installed0 = self.installed();
        let ghost entries0 = self.entries();
        let ghost all = found@;
        let mut found = found;
        while found.len() > 0
            invariant
                self.wf(),
                self.is_enumerated(),
                found@ == all.take(found@.len() as int),
                found@.len() <= all.len(),
                n0 == old(self).installed().len(),
                installed0 == old(self).installed(),
                entries0 == old(self).entries(),
                self.installed().len() >= n0,
                self.installed().take(n0 as int) == installed0,
                self.entries().take(n0 as int) == entries0,
                self.loaded_keys() == old(self).loaded_keys(),
                self.loaded_values() == old(self).loaded_values(),
                self.is_loaded_made() == old(self).is_loaded_made(),
                self.spec_native() == old(self).spec_native(),
                forall|j: int|
                    found@.len() <= j < all.len() ==> self.installed().contains(
                        #[trigger] all[j]@.version,
                    ),
                forall|i: int|
                    n0 <= i < self.installed().len() ==> #[trigger] kept_from(
                        self.entries(),
                        self.installed(),
                        all,
                        found@.len() as int,
                        i,
                    ),
            decreases found@.len(),
        {
            let ghost t = found@.len() - 1;
            let ghost before = *self;
            let item = found.pop().unwrap();
            assert(item == all[t]);
            let v = item.current_version();
            match find_version(&self.versions, &v) {
                Some(i) => {
                    assert(self.installed()[i as int] == v@);
                    assert forall|i: int| n0 <= i < self.installed().len() implies #[trigger] kept_from(
                        self.entries(),
                        self.installed(),
                        all,
                        t,
                        i,
                    ) by {
                        assert(kept_from(self.entries(), self.installed(), all, t + 1, i));
                        let j = choose|j: int|
                            t + 1 <= j && is_last_of(all, j, self.installed()[i])
                                && self.entries()[i] == all[j];
                        assert(t <= j && is_last_of(all, j, self.installed()[i])
                            && self.entries()[i] == all[j]);
                    }
                },
                None => {
                    let n = self.versions.len();
                    self.versions.push(v);
                    self.runtimes.push(item);
                    proof {
                        assert(self.installed() =~= before.installed().push(v@));
                        assert(self.entries() =~= before.entries().push(item));
                        assert(self.installed().take(n0 as int) =~= before.installed().take(n0 as int));
                        assert(self.entries().take(n0 as int) =~= before.entries().take(n0 as int));
                        lemma_push_contains(before.installed(), v@);
                        assert forall|a: int, b: int|
                            0 <= a < b < self.installed().len() implies self.installed()[a]
                            != self.installed()[b] by {
                            if b == n as int {
                                assert(before.installed().contains(before.installed()[a]));
                            }
                        }
                        assert forall|i: int| 0 <= i < self.installed().len() implies (
                        #[trigger] self.entries()[i])@.version == self.installed()[i] by {
                            if i < n {
                                assert(before.entries()[i] == self.entries()[i]);
                            }
                        }
                        assert forall|i: int| n0 <= i < self.installed().len() implies #[trigger] kept_from(
                            self.entries(),
                            self.installed(),
                            all,
                            t,
                            i,
                        ) by {
                            if i == n as int {
                                assert forall|k: int| t < k < all.len() implies all[k]@.version
                                    != v@ by {
                                    assert(before.installed().contains(all[k]@.version));
                                }
                                assert(self.entries()[i] == all[t]);
                                assert(is_last_of(all, t, self.installed()[i]));
                            } else {
                                assert(kept_from(before.entries(), before.installed(), all, t + 1, i));
                                let j = choose|j: int|
                                    t + 1 <= j && is_last_of(all, j, before.installed()[i])
                                        && before.entries()[i] == all[j];
                                assert(before.entries()[i] == self.entries()[i]);
                                assert(before.installed()[i] == self.installed()[i]);
                                assert(t <= j && is_last_of(all, j, self.installed()[i])
                                    && self.entries()[i] == all[j]);
                            }
                        }
                    }
                },
            }
            assert(found@ =~= all.take(found@.len() as int));
        }
        proof {
            assert forall|i: int| n0 <= i < self.installed().len() implies #[trigger] kept_from(
                self.entries(),
                self.installed(),
                all,
                0,
                i,
            ) by {
                assert(kept_from(self.entries(), self.installed(), all, found@.len() as int, i));
            }
            let fv = found_versions(all);
            assert forall|v: VersionView| #[trigger]
                self.installed().contains(v) <==> installed0.contains(v) || fv.contains(v) by {
                if self.installed().contains(v) {
                    let i = choose|i: int| 0 <= i < self.installed().len() && self.installed()[i] == v;
                    if i < n0 {
                        assert(installed0[i] == v);
                    } else {
                        assert(kept_from(self.entries(), self.installed(), all, 0, i));
                        let j = choose|j: int|
                            0 <= j && is_last_of(all, j, self.installed()[i])
                                && self.entries()[i] == all[j];
                        assert(fv[j] == v);
                    }
                }
                if installed0.contains(v) {
                    let i = choose|i: int| 0 <= i < installed0.len() && installed0[i] == v;
                    assert(self.installed().take(n0 as int)[i] == v);
                    assert(self.installed()[i] == v);
                }
                if fv.contains(v) {
                    let j = choose|j: int| 0 <= j < fv.len() && fv[j] == v;
                    assert(self.installed().contains(all[j]@.version));
                }
            }
        }
    }

    /// A snapshot of the catalog: each held version with the handle of its
    /// runtime.
    pub fn runtimes(&self) -> (r: Vec<(RuntimeVersion, RuntimeHandle)>)
        requires
            self.wf(),
        ensures
            r@.len() == self.installed().len(),
            forall|i: int|
                0 <= i < r@.len() ==> (#[trigger] r@[i]).0@ == self.installed()[i] && r@[i].1.id()
                    == i,
    {
        let mut out: Vec<(RuntimeVersion, RuntimeHandle)> = Vec::new();
        let mut i: usize = 0;
        while i < self.versions.len()
            invariant
                self.wf(),
                0 <= i <= self.versions@.len(),
                self.installed().len() == self.versions@.len(),
                out@.len() == i,
                forall|k: int|
                    0 <= k < i ==> (#[trigger] out@[k]).0@ == self.installed()[k] && out@[k].1.id()
                        == k,
            decreases self.versions@.len() - i,
        {
            out.push((self.versions[i].duplicate(), RuntimeHandle { index: i }));
            i = i + 1;
        }
        out
    }

    /// Whether the table of loaded runtimes is still to be made.
    pub fn loaded_runtimes_pending(&self) -> (r: bool)
        ensures
            r == !self.is_loaded_made(),
    {
        !self.loaded_made
    }

    /// Makes the table of loaded runtimes from the versions that the native
    /// enumeration of loaded runtimes handed out: it holds each version the
    /// catalog holds, and no other, marked true exactly where it is loaded.
    /// A table made already is kept.
    pub fn install_loaded(&mut self, loaded: Vec<RuntimeVersion>)
        requires
            old(self).wf(),
        ensures
            final(self).wf(),
            old(self).is_loaded_made() ==> *final(self) == *old(self),
            !old(self).is_loaded_made() ==> {
                &&& final(self).is_loaded_made()
                &&& is_loaded_table(
                    final(self).loaded_keys(),
                    final(self).loaded_values(),
                    old(self).installed(),
                    views(loaded@),
                )
                &&& final(self).loaded_keys() == old(self).installed()
                &&& final(self).installed() == old(self).installed()
                &&& final(self).entries() == old(self).entries()
                &&& final(self).is_enumerated() == old(self).is_enumerated()
                &&& final(self).spec_native() == old(self).spec_native()
            },
    {
        if self.loaded_made {
            return;
        }
        self.loaded_made = true;
        self.loaded_versions = Vec::new();
        self.loaded_flags = Vec::new();
        let ghost lv = views(loaded@);
        let ghost iv = self.installed();
        let mut k: usize = 0;
        while k < self.versions.len()
            invariant
                0 <= k <= self.versions@.len(),
                iv.len() == self.versions@.len(),
                lv == views(loaded@),
                self.installed() == iv,
                iv == old(self).installed(),
                iv.no_duplicates(),
                self.entries() == old(self).entries(),
                self.entries().len() == iv.len(),
                forall|i: int|
                    0 <= i < iv.len() ==> (#[trigger] self.entries()[i])@.version == iv[i],
                self.spec_native() == old(self).spec_native(),
                self.is_enumerated() == old(self).is_enumerated(),
                self.is_loaded_made(),
                self.loaded_keys() == iv.take(k as int),
                self.loaded_values().len() == k,
                forall|p: int|
                    0 <= p < k ==> #[trigger] self.loaded_values()[p] == lv.contains(iv[p]),
            decreases self.versions@.len() - k,
        {
            let ghost before = *self;
            let flag = match find_version(&loaded, &self.versions[k]) {
                Some(p) => {
                    assert(lv[p as int] == iv[k as int]);
                    true
                },
                None => false,
            };
            assert(flag == lv.contains(iv[k as int]));
            let v = self.versions[k].duplicate();
            self.loaded_versions.push(v);
            self.loaded_flags.push(flag);
            proof {
                assert(self.loaded_keys() =~= before.loaded_keys().push(iv[k as int]));
                assert(self.loaded_keys() =~= iv.take(k + 1));
            }
            k = k + 1;
        }
        assert(self.loaded_keys() =~= iv);
    }

    /// A snapshot of the table of loaded runtimes: each version with whether
    /// it is loaded in this process.
    pub fn loaded_runtimes(&self) -> (r: Vec<(RuntimeVersion, bool)>)
        requires
            self.wf(),
        ensures
            r@.len() == self.loaded_keys().len(),
            forall|i: int|
                0 <= i < r@.len() ==> (#[trigger] r@[i]).0@ == self.loaded_keys()[i] && r@[i].1
                    == self.loaded_values()[i],
    {
        let mut out: Vec<(RuntimeVersion, bool)> = Vec::new();
        let mut i: usize = 0;
        while i < self.loaded_versions.len()
            invariant
                self.wf(),
                0 <= i <= self.loaded_versions@.len(),
                self.loaded_keys().len() == self.loaded_versions@.len(),
                out@.len() == i,
                forall|k: int|
                    0 <= k < i ==> (#[trigger] out@[k]).0@ == self.loaded_keys()[k] && out@[k].1
                        == self.loaded_values()[k],
            decreases self.loaded_versions@.len() - i,
        {
            out.push((self.loaded_versions[i].duplicate(), self.loaded_flags[i]));
            i = i + 1;
        }
        out
    }
}

/// Two handles to the same version in one catalog are the same handle: the
/// catalog hands out one runtime per version.
pub proof fn lemma_handle_identity<M, P>(
    c: MetaHostImpl<M, P>,
    v: VersionView,
    h1: RuntimeHandle,
    h2: RuntimeHandle,
)
    requires
        c.wf(),
        c.refers(h1, v),
        c.refers(h2, v),
    ensures
        h1 == h2,
{
    assert(h1.index == h2.index);
}

} // verus!
