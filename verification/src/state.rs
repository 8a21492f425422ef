//! Init state: what the init reports of itself over its core socket

use vstd::prelude::*;

verus! {

/// The state of the init system. On the wire each state is one byte
/// (see `InitState::byte`); any other byte reads as `Down`.
#[derive(PartialEq, Eq, Clone, Copy, Debug, Structural)]
pub enum InitState {
    Okay,
    Emergency,
    Stalled,
    Down,
}

impl InitState {
    pub open spec fn spec_byte(self) -> u8 {
        match self {
            InitState::Okay => 0x02,
            InitState::Emergency => 0xa8,
            InitState::Stalled => 0xdc,
            InitState::Down => 0x20,
        }
    }

    pub open spec fn spec_from_byte(byte: u8) -> InitState {
        if byte == 0x02 {
            InitState::Okay
        } else if byte == 0xa8 {
            InitState::Emergency
        } else if byte == 0xdc {
            InitState::Stalled
        } else {
            InitState::Down
        }
    }

    /// The byte that stands for this state on the wire
    pub fn byte(self) -> (r: u8)
        ensures
            r == self.spec_byte(),
    {
        match self {
            InitState::Okay => 0x02,
            InitState::Emergency => 0xa8,
            InitState::Stalled => 0xdc,
            InitState::Down => 0x20,
        }
    }

    /// The state a byte stands for; unknown bytes are `Down`
    pub fn from_byte(byte: u8) -> (r: InitState)
        ensures
            r == InitState::spec_from_byte(byte),
    {
        if byte == 0x02 {
            InitState::Okay
        } else if byte == 0xa8 {
            InitState::Emergency
        } else if byte == 0xdc {
            InitState::Stalled
        } else {
            InitState::Down
        }
    }

    pub fn is_ok(self) -> (r: bool)
        ensures
            r == (self == InitState::Okay),
    {
        match self {
            InitState::Okay => true,
            _ => false,
        }
    }

    pub open spec fn spec_name(self) -> Seq<char> {
        match self {
            InitState::Okay => "Okay"@,
            InitState::Emergency => "Emergency"@,
            InitState::Stalled => "Stalled"@,
            InitState::Down => "Down"@,
        }
    }

    /// The state's name, as it is displayed
    pub fn name(self) -> (r: &'static str)
        ensures
            r@ == self.spec_name(),
    {
        match self {
            InitState::Okay => "Okay",
            InitState::Emergency => "Emergency",
            InitState::Stalled => "Stalled",
            InitState::Down => "Down",
        }
    }

    /// The default state is `Okay`
    pub fn default_state() -> (r: InitState)
        ensures
            r == InitState::Okay,
    {
        InitState::Okay
    }
}

impl Default for InitState {
    fn default() -> (r: InitState)
        ensures
            r == InitState::Okay,
    {
        InitState::Okay
    }
}

impl From<u8> for InitState {
    fn from(byte: u8) -> (r: InitState) {
        InitState::from_byte(byte)
    }
}

impl vstd::std_specs::convert::FromSpecImpl<u8> for InitState {
    open spec fn obeys_from_spec() -> bool {
        true
    }

    open spec fn from_spec(byte: u8) -> InitState {
        InitState::spec_from_byte(byte)
    }
}

/// A state sent as its byte is read back as the same state.
pub proof fn law_state_byte_roundtrip(s: InitState)
    ensures
        InitState::spec_from_byte(s.spec_byte()) == s,
{
}

/// No two states share a byte.
pub proof fn law_state_byte_injective(a: InitState, b: InitState)
    requires
        a.spec_byte() == b.spec_byte(),
    ensures
        a == b,
{
}

} // verus!
