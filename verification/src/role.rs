//! The two sides of a connection.

use vstd::prelude::*;

verus! {

/// Side of the connection.
#[derive(Clone, Copy, Debug, PartialEq, Eq, Structural)]
pub enum Side {
    /// A client initiates the connection.
    Client,
    /// A server waits for a client to connect.
    Server,
}

/// Which side of the connection emitted a checkpoint.
///
/// The integer encoding matches s2n-tls: server = 0, client = 1.
#[derive(Clone, Copy, Debug, PartialEq, Eq, Structural)]
pub enum Role {
    /// Server role; encodes to 0.
    Server,
    /// Client role; encodes to 1.
    Client,
}

impl Role {
    /// The number of this role.
    pub open spec fn code(self) -> u8 {
        match self {
            Role::Server => 0,
            Role::Client => 1,
        }
    }

    /// The role of a connection's own side.
    pub open spec fn of(side: Side) -> Role {
        match side {
            Side::Server => Role::Server,
            Side::Client => Role::Client,
        }
    }

    /// Integer encoding shared with s2n-tls (server = 0, client = 1).
    #[inline]
    pub fn as_u8(self) -> (code: u8)
        ensures
            code == self.code(),
            self == Role::Server <==> code == 0,
            self == Role::Client <==> code == 1,
    {
        match self {
            Role::Server => 0,
            Role::Client => 1,
        }
    }
}

impl From<Side> for Role {
    fn from(side: Side) -> (role: Self) {
        match side {
            Side::Server => Role::Server,
            Side::Client => Role::Client,
        }
    }
}

impl vstd::std_specs::convert::FromSpecImpl<Side> for Role {
    open spec fn obeys_from_spec() -> bool {
        true
    }

    open spec fn from_spec(side: Side) -> Self {
        Role::of(side)
    }
}

/// The number of a connection's role is 1 on the client's side and 0 on the server's, so the
/// number tells the sides apart.
pub proof fn law_role_code_identifies_side(side: Side)
    ensures
        <Role as vstd::std_specs::convert::FromSpec<Side>>::from_spec(side) == Role::of(side),
        Role::of(side).code() == 1 <==> side == Side::Client,
        Role::of(side).code() == 0 <==> side == Side::Server,
        Role::of(side) == Role::Client <==> side == Side::Client,
        Role::of(side) == Role::Server <==> side == Side::Server,
{
}

} // verus!
