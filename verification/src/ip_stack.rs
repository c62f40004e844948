//! Which IP protocol versions the host can use.
use vstd::prelude::*;

verus! {

/// The IP-stack capability currently available to the host.
///
/// It describes local stack availability, not per-protocol Internet
/// reachability.
#[derive(Clone, Copy, Debug, PartialEq, Eq, Structural)]
pub enum IpStack {
    /// Neither IPv4 nor IPv6 is available.
    Neither,
    /// Only IPv4 is available.
    V4Only,
    /// Only IPv6 is available.
    V6Only,
    /// Both IPv4 and IPv6 are available.
    DualStack,
}

impl Default for IpStack {
    fn default() -> (stack: Self)
        ensures
            stack == IpStack::Neither,
    {
        IpStack::Neither
    }
}

impl IpStack {
    /// Whether the capability covers IPv4.
    pub open spec fn covers_v4(self) -> bool {
        self is V4Only || self is DualStack
    }

    /// Whether the capability covers IPv6.
    pub open spec fn covers_v6(self) -> bool {
        self is V6Only || self is DualStack
    }

    /// The stable label of the capability.
    pub open spec fn label(self) -> Seq<char> {
        match self {
            IpStack::Neither => "None"@,
            IpStack::V4Only => "V4Only"@,
            IpStack::V6Only => "V6Only"@,
            IpStack::DualStack => "DualStack"@,
        }
    }

    /// Folds the two protocol-availability flags into a single capability.
    pub fn from_flags(have_v4: bool, have_v6: bool) -> (stack: Self)
        ensures
            stack.covers_v4() == have_v4,
            stack.covers_v6() == have_v6,
    {
        match (have_v4, have_v6) {
            (true, true) => IpStack::DualStack,
            (true, false) => IpStack::V4Only,
            (false, true) => IpStack::V6Only,
            (false, false) => IpStack::Neither,
        }
    }

    /// The variant name as a static string, a stable label for logs.
    pub fn name(&self) -> (name: &'static str)
        ensures
            name@ == self.label(),
    {
        match self {
            IpStack::Neither => "None",
            IpStack::V4Only => "V4Only",
            IpStack::V6Only => "V6Only",
            IpStack::DualStack => "DualStack",
        }
    }

    /// The variant name as an owned string.
    pub fn to_string(&self) -> (text: String)
        ensures
            text@ == self.label(),
    {
        self.name().to_string()
    }

    /// Whether IPv4 is available.
    pub fn has_ipv4(&self) -> (available: bool)
        ensures
            available == self.covers_v4(),
    {
        matches!(self, IpStack::V4Only | IpStack::DualStack)
    }

    /// Whether IPv6 is available.
    pub fn has_ipv6(&self) -> (available: bool)
        ensures
            available == self.covers_v6(),
    {
        matches!(self, IpStack::V6Only | IpStack::DualStack)
    }

    /// Whether both IPv4 and IPv6 are available.
    pub fn is_dual_stack(&self) -> (dual: bool)
        ensures
            dual == (self.covers_v4() && self.covers_v6()),
    {
        matches!(self, IpStack::DualStack)
    }
}

/// A capability is determined by its two flags.
pub proof fn flags_determine_the_stack(first: IpStack, second: IpStack)
    requires
        first.covers_v4() == second.covers_v4(),
        first.covers_v6() == second.covers_v6(),
    ensures
        first == second,
{
}

/// Different capabilities carry different labels.
pub proof fn labels_are_distinct(first: IpStack, second: IpStack)
    requires
        first.label() == second.label(),
    ensures
        first == second,
{
    reveal_strlit("None");
    reveal_strlit("V4Only");
    reveal_strlit("V6Only");
    reveal_strlit("DualStack");
    assert("None"@.len() == 4 && "V4Only"@.len() == 6 && "V6Only"@.len() == 6
        && "DualStack"@.len() == 9);
    assert("V4Only"@[1] == '4' && "V6Only"@[1] == '6');
}

} // verus!
