//! The binary interface of the runtime, as plain values: version codes,
//! status codes, and the 64-bit cell that carries an argument or a result.

use vstd::prelude::*;

verus! {

/// The runtime's boolean `false`.
pub const JNI_FALSE: u8 = 0;

/// The runtime's boolean `true`.
pub const JNI_TRUE: u8 = 1;

/// Interface versions that a runtime may be asked for.
#[allow(non_camel_case_types)]
#[derive(Debug, Clone, Copy, PartialEq, Eq, PartialOrd, Ord)]
pub enum JNIVersion {
    JNI_VERSION_1_1,
    JNI_VERSION_1_2,
    JNI_VERSION_1_4,
    JNI_VERSION_1_5,
    JNI_VERSION_1_6,
    JNI_VERSION_1_7,
    JNI_VERSION_1_8,
}

impl JNIVersion {
    /// The number by which the runtime knows this version: major version in
    /// the upper half, minor version in the lower half.
    pub open spec fn spec_code(self) -> int {
        match self {
            JNIVersion::JNI_VERSION_1_1 => 0x0001_0001,
            JNIVersion::JNI_VERSION_1_2 => 0x0001_0002,
            JNIVersion::JNI_VERSION_1_4 => 0x0001_0004,
            JNIVersion::JNI_VERSION_1_5 => 0x0001_0005,
            JNIVersion::JNI_VERSION_1_6 => 0x0001_0006,
            JNIVersion::JNI_VERSION_1_7 => 0x0001_0007,
            JNIVersion::JNI_VERSION_1_8 => 0x0001_0008,
        }
    }

    /// The number handed to the runtime for this version.
    pub fn code(self) -> (code: i32)
        ensures
            code == self.spec_code(),
    {
        match self {
            JNIVersion::JNI_VERSION_1_1 => 0x0001_0001,
            JNIVersion::JNI_VERSION_1_2 => 0x0001_0002,
            JNIVersion::JNI_VERSION_1_4 => 0x0001_0004,
            JNIVersion::JNI_VERSION_1_5 => 0x0001_0005,
            JNIVersion::JNI_VERSION_1_6 => 0x0001_0006,
            JNIVersion::JNI_VERSION_1_7 => 0x0001_0007,
            JNIVersion::JNI_VERSION_1_8 => 0x0001_0008,
        }
    }

    /// The version that the runtime knows by `code`, if there is one.
    pub fn from_code(code: i32) -> (version: Option<JNIVersion>)
        ensures
            match version {
                Some(v) => v.spec_code() == code,
                None => forall|v: JNIVersion| v.spec_code() != code,
            },
    {
        if code == 0x0001_0001 {
            Some(JNIVersion::JNI_VERSION_1_1)
        } else if code == 0x0001_0002 {
            Some(JNIVersion::JNI_VERSION_1_2)
        } else if code == 0x0001_0004 {
            Some(JNIVersion::JNI_VERSION_1_4)
        } else if code == 0x0001_0005 {
            Some(JNIVersion::JNI_VERSION_1_5)
        } else if code == 0x0001_0006 {
            Some(JNIVersion::JNI_VERSION_1_6)
        } else if code == 0x0001_0007 {
            Some(JNIVersion::JNI_VERSION_1_7)
        } else if code == 0x0001_0008 {
            Some(JNIVersion::JNI_VERSION_1_8)
        } else {
            None
        }
    }
}

/// Status codes that the runtime returns from its entry points.
#[allow(non_camel_case_types)]
#[derive(Debug, Clone, Copy, PartialEq, Eq)]
pub enum JNIError {
    /// Success.
    JNI_OK,
    /// Unknown error.
    JNI_ERR,
    /// The thread is detached from the runtime.
    JNI_EDETACHED,
    /// The version asked for is not supported.
    JNI_EVERSION,
    /// Not enough memory.
    JNI_ENOMEM,
    /// A runtime was already created in this process.
    JNI_EEXIST,
    /// Invalid arguments.
    JNI_EINVAL,
}

impl JNIError {
    /// The number that the runtime returns for this status.
    pub open spec fn spec_code(self) -> int {
        match self {
            JNIError::JNI_OK => 0,
            JNIError::JNI_ERR => -1,
            JNIError::JNI_EDETACHED => -2,
            JNIError::JNI_EVERSION => -3,
            JNIError::JNI_ENOMEM => -4,
            JNIError::JNI_EEXIST => -5,
            JNIError::JNI_EINVAL => -6,
        }
    }

    /// The number that the runtime returns for this status.
    pub fn code(self) -> (code: i32)
        ensures
            code == self.spec_code(),
    {
        match self {
            JNIError::JNI_OK => 0,
            JNIError::JNI_ERR => -1,
            JNIError::JNI_EDETACHED => -2,
            JNIError::JNI_EVERSION => -3,
            JNIError::JNI_ENOMEM => -4,
            JNIError::JNI_EEXIST => -5,
            JNIError::JNI_EINVAL => -6,
        }
    }

    /// The status that the runtime means by `code`, if it is one of the seven.
    pub fn from_code(code: i32) -> (status: Option<JNIError>)
        ensures
            match status {
                Some(s) => s.spec_code() == code,
                None => forall|s: JNIError| s.spec_code() != code,
            },
    {
        if code == 0 {
            Some(JNIError::JNI_OK)
        } else if code == -1 {
            Some(JNIError::JNI_ERR)
        } else if code == -2 {
            Some(JNIError::JNI_EDETACHED)
        } else if code == -3 {
            Some(JNIError::JNI_EVERSION)
        } else if code == -4 {
            Some(JNIError::JNI_ENOMEM)
        } else if code == -5 {
            Some(JNIError::JNI_EEXIST)
        } else if code == -6 {
            Some(JNIError::JNI_EINVAL)
        } else {
            None
        }
    }
}

/// The value of the low 8 bits of a cell.
pub open spec fn low8(data: u64) -> int {
    data as int % 0x100
}

/// The value of the low 16 bits of a cell.
pub open spec fn low16(data: u64) -> int {
    data as int % 0x1_0000
}

/// The value of the low 32 bits of a cell.
pub open spec fn low32(data: u64) -> int {
    data as int % 0x1_0000_0000
}

/// An unsigned number below `2 * half` read as a two's complement number.
pub open spec fn signed(bits: int, half: int) -> int {
    if bits >= half {
        bits - 2 * half
    } else {
        bits
    }
}

/// A two's complement number widened to 64 bits with its sign.
pub open spec fn sign_extended(value: int) -> int {
    if value < 0 {
        value + 0x1_0000_0000_0000_0000
    } else {
        value
    }
}

/// One 64-bit argument or result cell of the runtime. A value narrower than
/// the cell lies in its low bits; the accessors read exactly that width and
/// never look at the bits above it.
#[allow(non_camel_case_types)]
#[derive(Debug, Clone, Copy, PartialEq, Eq)]
pub struct jvalue {
    pub data: u64,
}

impl jvalue {
    /// The cell as a runtime boolean: its low 8 bits.
    pub fn z(&self) -> (r: u8)
        ensures
            r == low8(self.data),
    {
        let data: u64 = self.data;
        assert(data as u8 == data % 0x100) by (bit_vector);
        data as u8
    }

    /// The cell as a signed byte: its low 8 bits in two's complement.
    pub fn b(&self) -> (r: i8)
        ensures
            r == signed(low8(self.data), 0x80),
    {
        let data: u64 = self.data;
        let low: u8 = data as u8;
        assert(low == data % 0x100) by (bit_vector)
            requires
                low == data as u8,
        ;
        assert(low as i8 == if low >= 0x80 { low - 0x100 } else { low as int }) by (bit_vector);
        low as i8
    }

    /// The cell as a 16-bit character code: its low 16 bits.
    pub fn c(&self) -> (r: u16)
        ensures
            r == low16(self.data),
    {
        let data: u64 = self.data;
        assert(data as u16 == data % 0x1_0000) by (bit_vector);
        data as u16
    }

    /// The cell as a signed short: its low 16 bits in two's complement.
    pub fn s(&self) -> (r: i16)
        ensures
            r == signed(low16(self.data), 0x8000),
    {
        let data: u64 = self.data;
        let low: u16 = data as u16;
        assert(low == data % 0x1_0000) by (bit_vector)
            requires
                low == data as u16,
        ;
        assert(low as i16 == if low >= 0x8000 { low - 0x1_0000 } else { low as int })
            by (bit_vector);
        low as i16
    }

    /// The cell as a signed int: its low 32 bits in two's complement.
    pub fn i(&self) -> (r: i32)
        ensures
            r == signed(low32(self.data), 0x8000_0000),
    {
        let data: u64 = self.data;
        let low: u32 = data as u32;
        assert(low == data % 0x1_0000_0000) by (bit_vector)
            requires
                low == data as u32,
        ;
        assert(low as i32 == if low >= 0x8000_0000 { low - 0x1_0000_0000 } else { low as int })
            by (bit_vector);
        low as i32
    }

    /// The cell as a signed long: all 64 bits in two's complement.
    pub fn j(&self) -> (r: i64)
        ensures
            r == signed(self.data as int, 0x8000_0000_0000_0000),
    {
        let data: u64 = self.data;
        assert(data as i64 == if data >= 0x8000_0000_0000_0000 {
            data - 0x1_0000_0000_0000_0000
        } else {
            data as int
        }) by (bit_vector);
        data as i64
    }

    /// The cell as the bit pattern of a single-precision number: its low 32
    /// bits.
    pub fn f(&self) -> (r: u32)
        ensures
            r == low32(self.data),
    {
        let data: u64 = self.data;
        assert(data as u32 == data % 0x1_0000_0000) by (bit_vector);
        data as u32
    }

    /// The cell as the bit pattern of a double-precision number: all 64 bits.
    pub fn d(&self) -> (r: u64)
        ensures
            r == self.data,
    {
        self.data
    }

    /// The cell as an opaque reference: all 64 bits.
    pub fn l(&self) -> (r: u64)
        ensures
            r == self.data,
    {
        self.data
    }
}

} // verus!
