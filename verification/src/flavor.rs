//! Source dialects, their host-visible constants and the engine's media types.

use vstd::prelude::*;

verus! {

/// The four source dialects as the host binding names them.
#[derive(Clone, Copy, Debug, PartialEq, Eq, Structural)]
pub enum Flavor {
    JS,
    JSX,
    TS,
    TSX,
}

/// The four source dialects as the raw entry points name them.
#[derive(Clone, Copy, Debug, PartialEq, Eq, Structural)]
pub enum Type {
    JS,
    JSX,
    TS,
    TSX,
}

/// The engine's media type of a staged source file.
#[derive(Clone, Copy, Debug, PartialEq, Eq, Structural)]
pub enum MediaType {
    JavaScript,
    Jsx,
    TypeScript,
    Tsx,
}

/// Host constant of the plain script dialect with the markup extension.
pub const JSX: i64 = 0;

/// Host constant of the typed dialect with the markup extension.
pub const TSX: i64 = 1;

/// Host constant of the plain script dialect.
pub const JS: i64 = 2;

/// Host constant of the typed dialect. It is also what a call gets that names
/// no dialect.
pub const TS: i64 = 3;

/// The dialect that a host integer selects. An integer that is none of the
/// four constants selects the typed dialect.
pub open spec fn flavor_of_constant(code: i64) -> Flavor {
    if code == 0 {
        Flavor::JSX
    } else if code == 1 {
        Flavor::TSX
    } else if code == 2 {
        Flavor::JS
    } else {
        Flavor::TS
    }
}

/// The host integer under which a dialect is published.
pub open spec fn constant_of_flavor(flavor: Flavor) -> i64 {
    match flavor {
        Flavor::JSX => 0,
        Flavor::TSX => 1,
        Flavor::JS => 2,
        Flavor::TS => 3,
    }
}

/// The media type the engine is given for a dialect.
pub open spec fn media_type_of(flavor: Flavor) -> MediaType {
    match flavor {
        Flavor::JS => MediaType::JavaScript,
        Flavor::JSX => MediaType::Jsx,
        Flavor::TS => MediaType::TypeScript,
        Flavor::TSX => MediaType::Tsx,
    }
}

/// The name under which a dialect's constant is published on the host class.
pub open spec fn constant_name_of(flavor: Flavor) -> Seq<char> {
    match flavor {
        Flavor::JS => "JS"@,
        Flavor::JSX => "JSX"@,
        Flavor::TS => "TS"@,
        Flavor::TSX => "TSX"@,
    }
}

impl Flavor {
    /// Decodes the dialect argument of a host call.
    pub fn from_constant(code: i64) -> (flavor: Flavor)
        ensures
            flavor == flavor_of_constant(code),
            code == 0 ==> flavor == Flavor::JSX,
            code == 1 ==> flavor == Flavor::TSX,
            code == 2 ==> flavor == Flavor::JS,
            code == 3 ==> flavor == Flavor::TS,
    {
        match code {
            0 => Flavor::JSX,
            1 => Flavor::TSX,
            2 => Flavor::JS,
            _ => Flavor::TS,
        }
    }

    /// The integer that the host class publishes for this dialect.
    pub fn constant(self) -> (code: i64)
        ensures
            code == constant_of_flavor(self),
            0 <= code <= 3,
            flavor_of_constant(code) == self,
    {
        match self {
            Flavor::JSX => JSX,
            Flavor::TSX => TSX,
            Flavor::JS => JS,
            Flavor::TS => TS,
        }
    }

    /// The name of this dialect's constant on the host class.
    pub fn constant_name(self) -> (name: String)
        ensures
            name@ == constant_name_of(self),
    {
        match self {
            Flavor::JS => "JS".to_string(),
            Flavor::JSX => "JSX".to_string(),
            Flavor::TS => "TS".to_string(),
            Flavor::TSX => "TSX".to_string(),
        }
    }

    /// The media type under which source of this dialect is staged.
    pub fn media_type(self) -> (media: MediaType)
        ensures
            media == media_type_of(self),
    {
        match self {
            Flavor::JS => MediaType::JavaScript,
            Flavor::JSX => MediaType::Jsx,
            Flavor::TS => MediaType::TypeScript,
            Flavor::TSX => MediaType::Tsx,
        }
    }

    /// All dialects, in the order of their host constants.
    pub fn all() -> (flavors: [Flavor; 4])
        ensures
            forall|code: i64| 0 <= code <= 3 ==> flavors@[code as int] == flavor_of_constant(code),
    {
        [Flavor::JSX, Flavor::TSX, Flavor::JS, Flavor::TS]
    }
}

impl Type {
    /// The same dialect in the host binding's naming.
    pub open spec fn flavor_spec(self) -> Flavor {
        match self {
            Type::JS => Flavor::JS,
            Type::JSX => Flavor::JSX,
            Type::TS => Flavor::TS,
            Type::TSX => Flavor::TSX,
        }
    }

    /// The same dialect in the host binding's naming.
    pub fn flavor(self) -> (flavor: Flavor)
        ensures
            flavor == self.flavor_spec(),
    {
        match self {
            Type::JS => Flavor::JS,
            Type::JSX => Flavor::JSX,
            Type::TS => Flavor::TS,
            Type::TSX => Flavor::TSX,
        }
    }

    /// The media type under which source of this dialect is staged.
    pub fn media_type(self) -> (media: MediaType)
        ensures
            media == media_type_of(self.flavor_spec()),
    {
        self.flavor().media_type()
    }
}

/// Publishing a dialect's constant and decoding it again gives the dialect
/// back, and two dialects never share a constant.
pub proof fn lemma_constant_round_trip(a: Flavor, b: Flavor)
    ensures
        flavor_of_constant(constant_of_flavor(a)) == a,
        constant_of_flavor(a) == constant_of_flavor(b) ==> a == b,
{
}

/// Decoding one of the four host constants and publishing the result gives the
/// constant back; every other integer decodes like the typed dialect's.
pub proof fn lemma_decode_round_trip(code: i64)
    ensures
        0 <= code <= 3 ==> constant_of_flavor(flavor_of_constant(code)) == code,
        !(0 <= code <= 3) ==> flavor_of_constant(code) == Flavor::TS,
{
}

/// The dialects map one to one to media types.
pub proof fn lemma_media_type_injective(a: Flavor, b: Flavor)
    ensures
        media_type_of(a) == media_type_of(b) ==> a == b,
{
}

} // verus!
