//! Status codes, interface identifiers and addresses as they cross the
//! protocol boundary.

use vstd::prelude::*;

verus! {

/// A protocol status code. Negative values signal failure.
#[derive(Debug, Clone, Copy, PartialEq, Eq, Structural, Hash)]
pub struct HRESULT {
    pub hr: i32,
}

/// The code of a call that succeeded.
pub const S_OK: i32 = 0;

/// The code for an interface that the object does not support.
pub const E_NOINTERFACE: i32 = -2147467262;

/// The code for a pointer argument that was null.
pub const E_POINTER: i32 = -2147467261;

/// The code of an unspecified failure.
pub const E_FAIL: i32 = -2147467259;

/// The code for an argument that could not be converted.
pub const E_INVALIDARG: i32 = -2147024809;

impl HRESULT {
    /// Whether the code signals success.
    pub open spec fn spec_is_success(self) -> bool {
        self.hr >= 0
    }

    /// Whether the code signals success.
    #[verifier::when_used_as_spec(spec_is_success)]
    pub fn is_success(self) -> (ok: bool)
        ensures
            ok == self.spec_is_success(),
    {
        self.hr >= 0
    }
}

/// The failure a host operation reports across the boundary.
#[derive(Debug, Clone, Copy, PartialEq, Eq, Structural, Hash)]
pub struct ComError {
    pub hresult: HRESULT,
}

/// The result of a fallible host operation.
pub type ComResult<A> = Result<A, ComError>;

/// A 128-bit interface identifier.
#[derive(Debug, Clone, Copy, PartialEq, Eq, Structural, Hash)]
pub struct GUID {
    pub data1: u32,
    pub data2: u16,
    pub data3: u16,
    /// The last eight bytes, the first of them in the highest position.
    pub data4: u64,
}

impl GUID {
    /// The identifier of the base protocol that every object answers to.
    pub open spec fn spec_iid_iunknown() -> GUID {
        GUID { data1: 0, data2: 0, data3: 0, data4: 0xC000_0000_0000_0046 }
    }

    /// The identifier of the base protocol that every object answers to.
    #[verifier::when_used_as_spec(spec_iid_iunknown)]
    pub fn iid_iunknown() -> (iid: GUID)
        ensures
            iid == Self::spec_iid_iunknown(),
    {
        GUID { data1: 0, data2: 0, data3: 0, data4: 0xC000_0000_0000_0046 }
    }
}

/// The address of a function-table pointer inside an object. Zero is null.
#[derive(Debug, Clone, Copy, PartialEq, Eq, Structural, Hash)]
pub struct RawComPtr {
    pub addr: usize,
}

impl RawComPtr {
    /// The null pointer.
    pub open spec fn spec_null() -> RawComPtr {
        RawComPtr { addr: 0 }
    }

    /// The null pointer.
    #[verifier::when_used_as_spec(spec_null)]
    pub fn null() -> (p: RawComPtr)
        ensures
            p == Self::spec_null(),
    {
        RawComPtr { addr: 0 }
    }

    /// Whether this is the null pointer.
    pub open spec fn spec_is_null(self) -> bool {
        self.addr == 0
    }

    /// Whether this is the null pointer.
    #[verifier::when_used_as_spec(spec_is_null)]
    pub fn is_null(self) -> (null: bool)
        ensures
            null == self.spec_is_null(),
    {
        self.addr == 0
    }
}

} // verus!
