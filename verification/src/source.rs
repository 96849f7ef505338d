//! The synthetic file that stands for the caller's source.
//!
//! The module loader never touches a disk for it: before every evaluation one
//! descriptor is staged under the bridge's reserved identity and replaces
//! whatever was staged there before.

use vstd::prelude::*;
use crate::flavor::MediaType;

verus! {

/// What the module loader finds under the reserved identity.
#[derive(Debug)]
pub struct SourceFile {
    /// The reserved identity's path in the file system.
    pub local: String,
    /// The companion file of type declarations; there is never one.
    pub maybe_types: Option<String>,
    /// The media type, derived from the dialect asked for.
    pub media_type: MediaType,
    /// The caller's text.
    pub source: String,
    /// The reserved identity.
    pub specifier: String,
}

/// A [`SourceFile`] with its texts as sequences of characters.
pub struct SourceFileView {
    pub local: Seq<char>,
    pub maybe_types: Option<Seq<char>>,
    pub media_type: MediaType,
    pub source: Seq<char>,
    pub specifier: Seq<char>,
}

impl View for SourceFile {
    type V = SourceFileView;

    open spec fn view(&self) -> SourceFileView {
        SourceFileView {
            local: self.local@,
            maybe_types: match self.maybe_types {
                Some(types) => Some(types@),
                None => None,
            },
            media_type: self.media_type,
            source: self.source@,
            specifier: self.specifier@,
        }
    }
}

/// The path from which the reserved identity is resolved. It names no file
/// that is ever read.
pub open spec fn reserved_path_spec() -> Seq<char> {
    "./$deno$stdin.ts"@
}

/// The path from which the reserved identity is resolved.
pub fn reserved_path() -> (path: String)
    ensures
        path@ == reserved_path_spec(),
{
    "./$deno$stdin.ts".to_string()
}

} // verus!
