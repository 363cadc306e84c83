//! The processor architectures an image is built for.
use crate::error::RidoError;
use crate::text::same_text;
use vstd::prelude::*;

verus! {

/// A processor architecture: 64-bit or 32-bit x86.
#[allow(non_camel_case_types)]
#[derive(Debug, Clone, Copy, PartialEq, Eq, Structural)]
pub enum WindowsArchitecture {
    x86_64,
    i686,
}

impl WindowsArchitecture {
    /// The name under which the architecture is shown.
    pub open spec fn display_text(self) -> Seq<char> {
        match self {
            Self::x86_64 => "x86_64"@,
            Self::i686 => "i686"@,
        }
    }

    /// The architecture that a text names, under any of its aliases.
    pub open spec fn parse_text(s: Seq<char>) -> Option<Self> {
        if s == "i386"@ || s == "i686"@ || s == "x86"@ || s == "x32"@ {
            Some(Self::i686)
        } else if s == "x86_64"@ || s == "amd64"@ || s == "x64"@ {
            Some(Self::x86_64)
        } else {
            None
        }
    }

    /// The tag that the name of an image file carries for the architecture.
    pub open spec fn tag_text(self) -> Seq<char> {
        match self {
            Self::x86_64 => "x64"@,
            Self::i686 => "x32"@,
        }
    }

    /// The width of the architecture in bits, as the vendor's pages write it.
    pub open spec fn bits_text(self) -> Seq<char> {
        match self {
            Self::x86_64 => "64"@,
            Self::i686 => "32"@,
        }
    }

    /// Every architecture, in the order of declaration.
    pub open spec fn all_spec() -> Seq<Self> {
        seq![Self::x86_64, Self::i686]
    }

    /// The name under which the architecture is shown.
    pub fn to_string(&self) -> (r: String)
        ensures
            r@ == self.display_text(),
    {
        match self {
            Self::x86_64 => String::from_str("x86_64"),
            Self::i686 => String::from_str("i686"),
        }
    }

    /// The tag that the name of an image file carries for the architecture.
    pub fn tag(&self) -> (r: &'static str)
        ensures
            r@ == self.tag_text(),
    {
        match self {
            Self::x86_64 => "x64",
            Self::i686 => "x32",
        }
    }

    /// The width of the architecture in bits.
    pub fn bits(&self) -> (r: &'static str)
        ensures
            r@ == self.bits_text(),
    {
        match self {
            Self::x86_64 => "64",
            Self::i686 => "32",
        }
    }

    /// Every architecture, in the order of declaration.
    pub fn all() -> (r: Vec<Self>)
        ensures
            r@ == Self::all_spec(),
    {
        let mut out: Vec<Self> = Vec::new();
        out.push(Self::x86_64);
        out.push(Self::i686);
        assert(out@ =~= Self::all_spec());
        out
    }
}

impl<'a> TryFrom<&'a str> for WindowsArchitecture {
    type Error = RidoError;

    /// Reads an architecture from any of its aliases.
    fn try_from(value: &'a str) -> (r: Result<Self, RidoError>) {
        if same_text(value, "i386") || same_text(value, "i686") || same_text(value, "x86")
            || same_text(value, "x32") {
            Ok(Self::i686)
        } else if same_text(value, "x86_64") || same_text(value, "amd64") || same_text(
            value,
            "x64",
        ) {
            Ok(Self::x86_64)
        } else {
            Err(RidoError::InvalidArchitectureStr)
        }
    }
}

impl<'a> vstd::std_specs::convert::TryFromSpecImpl<&'a str> for WindowsArchitecture {
    open spec fn obeys_try_from_spec() -> bool {
        true
    }

    open spec fn try_from_spec(v: &'a str) -> Result<Self, RidoError> {
        match Self::parse_text(v@) {
            Some(arch) => Ok(arch),
            None => Err(RidoError::InvalidArchitectureStr),
        }
    }
}

/// Reading the shown name of an architecture gives the architecture back.
pub proof fn lemma_architecture_round_trip(arch: WindowsArchitecture)
    ensures
        WindowsArchitecture::parse_text(arch.display_text()) == Some(arch),
{
    reveal_strlit("i386");
    assert("i386"@.len() == 4);
    assert("i386"@[1] == '3');
    reveal_strlit("i686");
    assert("i686"@.len() == 4);
    assert("i686"@[1] == '6');
    reveal_strlit("x86");
    assert("x86"@.len() == 3);
    assert("x86"@[1] == '8');
    reveal_strlit("x32");
    assert("x32"@.len() == 3);
    assert("x32"@[1] == '3');
    reveal_strlit("x86_64");
    assert("x86_64"@.len() == 6);
    reveal_strlit("amd64");
    assert("amd64"@.len() == 5);
    reveal_strlit("x64");
    assert("x64"@.len() == 3);
    assert("x64"@[1] == '6');
}

} // verus!
