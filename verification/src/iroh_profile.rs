//! Deployment-time Iroh endpoint policy. The generic runtime asks for
//! availability and dormancy; the endpoint profile decides which discovery and
//! relay services are appropriate.
use vstd::prelude::*;
use crate::text::{
    ascii_lowercase_chars, chars_eq_str, chars_of, spec_ascii_lowercase, spec_trim, trim_chars,
};

verus! {

/// Energy cost class a transport provider advertises.
#[derive(Clone, Copy, Debug, PartialEq, Eq, Structural)]
pub enum EnergyClass {
    Low,
    Medium,
    High,
}

#[derive(Clone, Copy, Debug, PartialEq, Eq, Structural)]
pub enum IrohEndpointProfile {
    AlwaysReachable,
    DirectOnly,
    LocalOnly,
}

/// The wire value, trimmed and lowercased, as `from_wire` compares it.
pub open spec fn normalized_wire(value: Seq<char>) -> Seq<char> {
    spec_ascii_lowercase(spec_trim(value))
}

/// The profile that a wire value selects; anything unknown is the safe
/// always-reachable default.
pub open spec fn spec_from_wire(value: Seq<char>) -> IrohEndpointProfile {
    let n = normalized_wire(value);
    if n == "direct"@ || n == "direct-only"@ {
        IrohEndpointProfile::DirectOnly
    } else if n == "local"@ || n == "local-only"@ {
        IrohEndpointProfile::LocalOnly
    } else {
        IrohEndpointProfile::AlwaysReachable
    }
}

pub open spec fn spec_wire_value(profile: IrohEndpointProfile) -> Seq<char> {
    match profile {
        IrohEndpointProfile::AlwaysReachable => "always"@,
        IrohEndpointProfile::DirectOnly => "direct"@,
        IrohEndpointProfile::LocalOnly => "local"@,
    }
}

impl IrohEndpointProfile {
    pub fn from_wire(value: &str) -> (r: Self)
        ensures
            r == spec_from_wire(value@),
    {
        let chars = chars_of(value);
        let trimmed = trim_chars(&chars);
        let n = ascii_lowercase_chars(&trimmed);
        if chars_eq_str(&n, "direct") || chars_eq_str(&n, "direct-only") {
            IrohEndpointProfile::DirectOnly
        } else if chars_eq_str(&n, "local") || chars_eq_str(&n, "local-only") {
            IrohEndpointProfile::LocalOnly
        } else {
            IrohEndpointProfile::AlwaysReachable
        }
    }

    pub fn wire_value(self) -> (r: &'static str)
        ensures
            r@ == spec_wire_value(self),
    {
        match self {
            IrohEndpointProfile::AlwaysReachable => "always",
            IrohEndpointProfile::DirectOnly => "direct",
            IrohEndpointProfile::LocalOnly => "local",
        }
    }

    pub fn energy_class(self) -> (r: EnergyClass)
        ensures
            r == (if self == IrohEndpointProfile::AlwaysReachable {
                EnergyClass::Medium
            } else {
                EnergyClass::Low
            }),
    {
        match self {
            IrohEndpointProfile::DirectOnly | IrohEndpointProfile::LocalOnly => EnergyClass::Low,
            IrohEndpointProfile::AlwaysReachable => EnergyClass::Medium,
        }
    }

    /// The profile the build or, failing that, the environment selects;
    /// the always-reachable default when neither names one.
    pub fn from_configured(compiled: Option<&str>, environment: Option<&str>) -> (r: Self)
        ensures
            r == match compiled {
                Some(v) => spec_from_wire(v@),
                None => match environment {
                    Some(v) => spec_from_wire(v@),
                    None => IrohEndpointProfile::AlwaysReachable,
                },
            },
    {
        match compiled {
            Some(v) => IrohEndpointProfile::from_wire(v),
            None => match environment {
                Some(v) => IrohEndpointProfile::from_wire(v),
                None => IrohEndpointProfile::AlwaysReachable,
            },
        }
    }

    pub fn supports_incoming_reachability(self) -> (r: bool)
        ensures
            r == (self == IrohEndpointProfile::AlwaysReachable),
    {
        match self {
            IrohEndpointProfile::AlwaysReachable => true,
            _ => false,
        }
    }
}

} // verus!
