//! Host-side session and pipe-I/O layer for FT60x (D3XX) USB SuperSpeed bridges.
//!
//! The library holds the logic of the driver layer: the translation of native
//! status codes, the pipe set, enumeration records, version numbers, and the
//! transfer engine that decides, step by step, which native call comes next and
//! what its outcome means. The native calls themselves are made by the caller,
//! who hands each outcome back.
use vstd::prelude::*;

pub mod error;
pub mod pipe;
pub mod version;
pub mod transfer;
pub mod text;
pub mod device_info;
pub mod descriptor;
pub mod config;
pub mod session;
