use vstd::prelude::*;

verus! {

/// A COM class or interface identifier, field by field as the native headers
/// write it.
#[derive(Clone, Copy, Debug, PartialEq, Eq, Hash)]
pub struct Guid {
    pub data1: u32,
    pub data2: u16,
    pub data3: u16,
    pub data4: [u8; 8],
}

/// The sub-interfaces that a runtime hands out.
#[derive(Clone, Copy, Debug, PartialEq, Eq, Structural, Hash)]
pub enum SupportedInterfaces {
    CorRuntimeHost,
    CLRRuntimeHost,
    TypeNameFactory,
}

/// `{CB2F6723-AB3A-11D2-9C40-00C04FA30A3E}`
pub open spec fn cor_runtime_host_clsid() -> Guid {
    Guid { data1: 0xCB2F6723, data2: 0xAB3A, data3: 0x11D2, data4: [0x9C, 0x40, 0x00, 0xC0, 0x4F, 0xA3, 0x0A, 0x3E] }
}

/// `{CB2F6722-AB3A-11D2-9C40-00C04FA30A3E}`
pub open spec fn cor_runtime_host_iid() -> Guid {
    Guid { data1: 0xCB2F6722, data2: 0xAB3A, data3: 0x11D2, data4: [0x9C, 0x40, 0x00, 0xC0, 0x4F, 0xA3, 0x0A, 0x3E] }
}

/// `{90F1A06E-7712-4762-86B5-7A5EBA6BDB02}`
pub open spec fn clr_runtime_host_clsid() -> Guid {
    Guid { data1: 0x90F1A06E, data2: 0x7712, data3: 0x4762, data4: [0x86, 0xB5, 0x7A, 0x5E, 0xBA, 0x6B, 0xDB, 0x02] }
}

/// `{90F1A06C-7712-4762-86B5-7A5EBA6BDB02}`
pub open spec fn clr_runtime_host_iid() -> Guid {
    Guid { data1: 0x90F1A06C, data2: 0x7712, data3: 0x4762, data4: [0x86, 0xB5, 0x7A, 0x5E, 0xBA, 0x6B, 0xDB, 0x02] }
}

/// `{B81FF171-20F3-11D2-8DCC-00A0C9B00525}`
pub open spec fn type_name_factory_clsid() -> Guid {
    Guid { data1: 0xB81FF171, data2: 0x20F3, data3: 0x11D2, data4: [0x8D, 0xCC, 0x00, 0xA0, 0xC9, 0xB0, 0x05, 0x25] }
}

/// `{B81FF171-20F3-11D2-8DCC-00A0C9B00521}`
pub open spec fn type_name_factory_iid() -> Guid {
    Guid { data1: 0xB81FF171, data2: 0x20F3, data3: 0x11D2, data4: [0x8D, 0xCC, 0x00, 0xA0, 0xC9, 0xB0, 0x05, 0x21] }
}

impl SupportedInterfaces {
    /// The class identifier to ask the runtime for.
    pub open spec fn spec_clsid(self) -> Guid {
        match self {
            SupportedInterfaces::CorRuntimeHost => cor_runtime_host_clsid(),
            SupportedInterfaces::CLRRuntimeHost => clr_runtime_host_clsid(),
            SupportedInterfaces::TypeNameFactory => type_name_factory_clsid(),
        }
    }

    /// The interface identifier to ask the runtime for.
    pub open spec fn spec_iid(self) -> Guid {
        match self {
            SupportedInterfaces::CorRuntimeHost => cor_runtime_host_iid(),
            SupportedInterfaces::CLRRuntimeHost => clr_runtime_host_iid(),
            SupportedInterfaces::TypeNameFactory => type_name_factory_iid(),
        }
    }

    /// The class identifier of this kind of sub-interface.
    pub fn clsid(&self) -> (r: Guid)
        ensures
            r == self.spec_clsid(),
    {
        match self {
            SupportedInterfaces::CorRuntimeHost => Guid {
                data1: 0xCB2F6723,
                data2: 0xAB3A,
                data3: 0x11D2,
                data4: [0x9C, 0x40, 0x00, 0xC0, 0x4F, 0xA3, 0x0A, 0x3E],
            },
            SupportedInterfaces::CLRRuntimeHost => Guid {
                data1: 0x90F1A06E,
                data2: 0x7712,
                data3: 0x4762,
                data4: [0x86, 0xB5, 0x7A, 0x5E, 0xBA, 0x6B, 0xDB, 0x02],
            },
            SupportedInterfaces::TypeNameFactory => Guid {
                data1: 0xB81FF171,
                data2: 0x20F3,
                data3: 0x11D2,
                data4: [0x8D, 0xCC, 0x00, 0xA0, 0xC9, 0xB0, 0x05, 0x25],
            },
        }
    }

    /// The interface identifier of this kind of sub-interface.
    pub fn iid(&self) -> (r: Guid)
        ensures
            r == self.spec_iid(),
    {
        match self {
            SupportedInterfaces::CorRuntimeHost => Guid {
                data1: 0xCB2F6722,
                data2: 0xAB3A,
                data3: 0x11D2,
                data4: [0x9C, 0x40, 0x00, 0xC0, 0x4F, 0xA3, 0x0A, 0x3E],
            },
            SupportedInterfaces::CLRRuntimeHost => Guid {
                data1: 0x90F1A06C,
                data2: 0x7712,
                data3: 0x4762,
                data4: [0x86, 0xB5, 0x7A, 0x5E, 0xBA, 0x6B, 0xDB, 0x02],
            },
            SupportedInterfaces::TypeNameFactory => Guid {
                data1: 0xB81FF171,
                data2: 0x20F3,
                data3: 0x11D2,
                data4: [0x8D, 0xCC, 0x00, 0xA0, 0xC9, 0xB0, 0x05, 0x21],
            },
        }
    }
}

/// A sub-interface obtained from a runtime, tagged with its kind. The native
/// object it holds is carried through as it is.
pub struct IntfCtr<I> {
    inner: I,
    intf_ty: SupportedInterfaces,
}

impl<I> IntfCtr<I> {
    pub closed spec fn spec_inner(&self) -> I {
        self.inner
    }

    pub closed spec fn spec_kind(&self) -> SupportedInterfaces {
        self.intf_ty
    }

    /// Tags the native object `inner` as a sub-interface of kind `intf_ty`.
    pub fn new(inner: I, intf_ty: SupportedInterfaces) -> (r: IntfCtr<I>)
        ensures
            r.spec_inner() == inner,
            r.spec_kind() == intf_ty,
    {
        IntfCtr { inner, intf_ty }
    }

    /// The kind of this sub-interface.
    pub fn kind(&self) -> (r: SupportedInterfaces)
        ensures
            r == self.spec_kind(),
    {
        self.intf_ty
    }

    /// The native object.
    pub fn inner(&self) -> (r: &I)
        ensures
            *r == self.spec_inner(),
    {
        &self.inner
    }
}

} // verus!
