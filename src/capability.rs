//! The capabilities that an augmented struct asks the compiler to derive.
use vstd::prelude::*;

verus! {

/// A behaviour that a derive attribute requests for the augmented struct.
#[derive(Clone, Copy, Debug, PartialEq, Eq, Structural)]
pub enum Capability {
    /// Serialisation into a structured value.
    Serializable,
    /// Deserialisation from a structured value.
    Deserializable,
    /// Duplication of a value.
    Duplicable,
    /// Debug printing.
    DebugPrintable,
}

/// The path that names the derive of a capability.
pub open spec fn capability_path(c: Capability) -> Seq<char> {
    match c {
        Capability::Serializable => "::serde::Serialize"@,
        Capability::Deserializable => "::serde::Deserialize"@,
        Capability::Duplicable => "Clone"@,
        Capability::DebugPrintable => "Debug"@,
    }
}

/// The paths of `caps`, in order, separated by `", "`.
pub open spec fn joined_paths(caps: Seq<Capability>) -> Seq<char>
    decreases caps.len(),
{
    if caps.len() == 0 {
        Seq::empty()
    } else if caps.len() == 1 {
        capability_path(caps[0])
    } else {
        joined_paths(caps.drop_last()) + ", "@ + capability_path(caps.last())
    }
}

/// The attribute line that derives every capability of `caps`.
pub open spec fn derive_attribute(caps: Seq<Capability>) -> Seq<char> {
    "#[derive("@ + joined_paths(caps) + ")]\n"@
}

/// The four capabilities that every augmented struct receives, in the order
/// in which they are derived.
pub open spec fn standard_capabilities() -> Seq<Capability> {
    seq![
        Capability::Serializable,
        Capability::Deserializable,
        Capability::Duplicable,
        Capability::DebugPrintable,
    ]
}

impl Capability {
    /// The path that names this capability's derive.
    pub fn derive_path(self) -> (r: &'static str)
        ensures
            r@ == capability_path(self),
    {
        match self {
            Capability::Serializable => "::serde::Serialize",
            Capability::Deserializable => "::serde::Deserialize",
            Capability::Duplicable => "Clone",
            Capability::DebugPrintable => "Debug",
        }
    }

    /// The four capabilities that every augmented struct receives.
    pub fn standard() -> (r: Vec<Capability>)
        ensures
            r@ == standard_capabilities(),
    {
        let r = vec![
            Capability::Serializable,
            Capability::Deserializable,
            Capability::Duplicable,
            Capability::DebugPrintable,
        ];
        assert(r@ =~= standard_capabilities());
        r
    }
}

/// Writes the attribute line that derives every capability of `caps`.
pub fn render_derive_attribute(caps: &Vec<Capability>) -> (r: String)
    ensures
        r@ == derive_attribute(caps@),
{
    let mut paths = String::new();
    let mut i: usize = 0;
    while i < caps.len()
        invariant
            i <= caps.len(),
            paths@ == joined_paths(caps@.subrange(0, i as int)),
        decreases caps.len() - i,
    {
        let prefix = Ghost(caps@.subrange(0, i as int));
        if i > 0 {
            paths.append(", ");
        }
        paths.append(caps[i].derive_path());
        proof {
            let next = caps@.subrange(0, i + 1);
            assert(next.drop_last() =~= prefix@);
            assert(next.last() == caps@[i as int]);
        }
        i = i + 1;
    }
    assert(caps@.subrange(0, caps.len() as int) =~= caps@);
    let mut r = String::from_str("#[derive(");
    r.append(paths.as_str());
    r.append(")]\n");
    r
}

} // verus!
