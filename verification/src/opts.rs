//! Build-time switches and the code offsets of `curl_easy_setopt` in the
//! supported game builds.
use vstd::prelude::*;

verus! {

/// Find `curl_easy_setopt` in "libUE4.so" by its symbol; turn off for builds
/// from 18.40 on, which need the offset in "libUnreal.so".
pub const USE_CURL_SYMBOL: bool = true;

/// Also hook the copy of `curl_easy_setopt` in the EOS SDK (builds from 22 on).
pub const USE_EOS: bool = false;

/// Switch off peer certificate verification (for debugging through a proxy).
pub const BYPASS_SSL: bool = false;

/// Offset of `curl_easy_setopt` from the base of "libUnreal.so".
pub const UNREAL_SETOPT_OFFSET: usize = 0x12DB8640;

/// Offset of `curl_easy_setopt` from the base of "libEOSSDK.so".
pub const EOS_SETOPT_OFFSET: usize = 0x1988998;

} // verus!
