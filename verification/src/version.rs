//! The version record of one native library.

use vstd::prelude::*;
use vstd::utf8::*;
use crate::text::try_convert_cstr;

verus! {

/// What a native library says of its own build.
#[derive(Debug, Clone, PartialEq, Eq)]
pub struct VersionInfo {
    pub version: String,
    pub hash: String,
    pub build_time: String,
}

/// The three fields of a [`VersionInfo`] as sequences of characters.
pub struct VersionInfoView {
    pub version: Seq<char>,
    pub hash: Seq<char>,
    pub build_time: Seq<char>,
}

impl View for VersionInfo {
    type V = VersionInfoView;

    open spec fn view(&self) -> VersionInfoView {
        VersionInfoView {
            version: self.version@,
            hash: self.hash@,
            build_time: self.build_time@,
        }
    }
}

/// The record that three native strings decode to.
pub open spec fn decoded_info(
    version: Seq<u8>,
    hash: Seq<u8>,
    build_time: Seq<u8>,
) -> VersionInfoView {
    VersionInfoView {
        version: decode_utf8(version),
        hash: decode_utf8(hash),
        build_time: decode_utf8(build_time),
    }
}

impl VersionInfo {
    /// Builds the record from the three native strings of a library, each
    /// given by its bytes without the terminator. There is a record exactly
    /// when all three are valid UTF-8; nothing is kept of a partial decoding.
    pub fn from_native(version: &[u8], hash: &[u8], build_time: &[u8]) -> (info: Option<
        VersionInfo,
    >)
        ensures
            info is Some <==> valid_utf8(version@) && valid_utf8(hash@) && valid_utf8(build_time@),
            info matches Some(i) ==> i@ == decoded_info(version@, hash@, build_time@),
    {
        let version = match try_convert_cstr(version) {
            Some(text) => text,
            None => { return None; },
        };
        let hash = match try_convert_cstr(hash) {
            Some(text) => text,
            None => { return None; },
        };
        let build_time = match try_convert_cstr(build_time) {
            Some(text) => text,
            None => { return None; },
        };
        Some(VersionInfo { version, hash, build_time })
    }
}

} // verus!
