//! Request redirection for the game client: which requests leave for the
//! custom backend, where they go, and how the hooks that catch them are set up.
use vstd::prelude::*;

pub mod cfnetwork;
pub mod curl_hook;
pub mod dobby;
pub mod hooking;
pub mod maps;
pub mod opts;
pub mod partyhub;
pub mod protocol;
pub mod text;
pub mod url;
pub mod wkwebview;

verus! {
} // verus!
