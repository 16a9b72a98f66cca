#![allow(non_camel_case_types)]
#![allow(non_snake_case)]

pub mod utf16;
pub mod winapi;
pub mod from_wide;
pub mod window;
