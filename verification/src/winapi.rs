use vstd::prelude::*;

verus! {

// C types
pub type wchar_t = u16;

pub type c_int = i32;

pub type c_uint = u32;

pub type c_long = i64;

pub type c_ulong = u64;

pub type c_ushort = u16;

// Win API types
pub type BYTE = u8;

pub type WCHAR = wchar_t;

pub type INT = c_int;

pub type UINT = c_uint;

pub type LONG = c_long;

pub type WORD = c_ushort;

pub type DWORD = c_ulong;

pub type BOOL = INT;

pub type ATOM = WORD;

pub type UINT_PTR = usize;

pub type LONG_PTR = isize;

// Parameter types
pub type WPARAM = UINT_PTR;

pub type LPARAM = LONG_PTR;

// Status types
pub type REGSAM = DWORD;

pub type LSTATUS = LONG;

pub type HRESULT = LONG;

pub type LRESULT = LONG_PTR;

/// A point in screen coordinates, as carried by a window message.
pub struct POINT {
    pub x: LONG,
    pub y: LONG,
}

impl Default for POINT {
    /// The all-zero point.
    fn default() -> (p: Self)
        ensures
            p.x == 0,
            p.y == 0,
    {
        POINT { x: 0, y: 0 }
    }
}

// Constants
pub const KL_NAMELENGTH: usize = 1024;

pub const KLF_SETFORPROCESS: UINT = 0x00000100;

pub const KLF_REORDER: UINT = 0x00000008;

pub const READ_KEY: DWORD = 0x20019;

pub const ERROR_SUCCESS: i64 = 0;

pub const BUFFER_LENGTH: usize = 2048;

pub const RRF_RT_REG_EXPAND_SZ: DWORD = 0x00000004;

pub const RRF_RT_REG_SZ: DWORD = 0x00000002;

pub const S_OK: HRESULT = 0x00000000;

pub const WS_OVERLAPPED: u32 = 0x00000000;

pub const WS_CAPTION: u32 = 0x00C00000;

pub const WS_SYSMENU: u32 = 0x00080000;

pub const WS_THICKFRAME: u32 = 0x00040000;

pub const WS_MINIMIZEBOX: u32 = 0x00020000;

pub const WS_MAXIMIZEBOX: u32 = 0x00010000;

pub const WS_OVERLAPPEDWINDOW: u32 = WS_OVERLAPPED | WS_CAPTION | WS_SYSMENU | WS_THICKFRAME
    | WS_MINIMIZEBOX | WS_MAXIMIZEBOX;

pub const CW_USEDEFAULT: c_int = -2147483648;

pub const SW_SHOW: c_int = 5;

pub const WM_CLOSE: u32 = 0x0010;

pub const WM_DESTROY: u32 = 0x0002;

} // verus!
