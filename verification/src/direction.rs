//! Directional policies: whether a role sends, receives, or both, for one
//! replicated attribute.

use vstd::prelude::*;
use crate::recipient::RecipientSpec;

verus! {

/// Direction policy for the authority role.  The authority talks to many
/// peers, so each direction carries a [`RecipientSpec`] that selects them.
pub enum AuthorityDirection {
    /// The attribute is neither sent nor received.
    Inactive,
    /// The attribute is sent to the peers the specification accepts.
    To(RecipientSpec),
    /// The attribute is received from the peers the specification accepts.
    From(RecipientSpec),
    /// The attribute is both sent and received, each side with its own
    /// specification.
    ToFrom(RecipientSpec, RecipientSpec),
}

/// Direction policy for a peer role.  A peer only ever talks to the single
/// authority, so no recipient specification is needed.
#[derive(Clone, Copy, PartialEq, Eq, Structural, Debug)]
pub enum PeerDirection {
    /// The attribute is neither sent nor received.
    Inactive,
    /// The attribute is sent to the authority.
    To,
    /// The attribute is received from the authority.
    From,
}

impl AuthorityDirection {
    /// The specification that selects the send targets, if this policy
    /// sends at all.
    pub open spec fn to_spec(self) -> Option<RecipientSpec> {
        match self {
            AuthorityDirection::Inactive => Option::None,
            AuthorityDirection::To(s) => Option::Some(s),
            AuthorityDirection::From(_) => Option::None,
            AuthorityDirection::ToFrom(s, _) => Option::Some(s),
        }
    }

    /// The specification that validates inbound senders, if this policy
    /// receives at all.
    pub open spec fn from_spec(self) -> Option<RecipientSpec> {
        match self {
            AuthorityDirection::Inactive => Option::None,
            AuthorityDirection::To(_) => Option::None,
            AuthorityDirection::From(s) => Option::Some(s),
            AuthorityDirection::ToFrom(_, s) => Option::Some(s),
        }
    }

    /// The send-target specification, or absence when this policy does not
    /// send.
    pub fn to(&self) -> (r: Option<&RecipientSpec>)
        ensures
            r is Some <==> self.to_spec() is Some,
            r matches Option::Some(s) ==> *s == self.to_spec()->Some_0,
    {
        match self {
            AuthorityDirection::Inactive => Option::None,
            AuthorityDirection::To(s) => Option::Some(s),
            AuthorityDirection::From(_) => Option::None,
            AuthorityDirection::ToFrom(s, _) => Option::Some(s),
        }
    }

    /// The inbound acceptance specification, or absence when this policy
    /// does not receive.
    pub fn from(&self) -> (r: Option<&RecipientSpec>)
        ensures
            r is Some <==> self.from_spec() is Some,
            r matches Option::Some(s) ==> *s == self.from_spec()->Some_0,
    {
        match self {
            AuthorityDirection::Inactive => Option::None,
            AuthorityDirection::To(_) => Option::None,
            AuthorityDirection::From(s) => Option::Some(s),
            AuthorityDirection::ToFrom(_, s) => Option::Some(s),
        }
    }

    /// Whether this policy both sends and receives with overlapping
    /// specifications: the configuration hazard of a possible feedback
    /// loop.
    pub open spec fn spec_hazard(self) -> bool {
        match self {
            AuthorityDirection::ToFrom(t, f) => t.spec_overlap(f),
            _ => false,
        }
    }

    /// Whether this policy is the hazardous `ToFrom` configuration whose
    /// two specifications overlap.
    pub fn hazard(&self) -> (r: bool)
        ensures
            r == self.spec_hazard(),
    {
        match self {
            AuthorityDirection::ToFrom(t, f) => t.overlap(f),
            _ => false,
        }
    }
}

impl PeerDirection {
    /// Whether the peer sends the attribute to the authority.
    pub fn to(&self) -> (r: bool)
        ensures
            r == (*self is To),
    {
        matches!(self, PeerDirection::To)
    }

    /// Whether the peer receives the attribute from the authority.
    pub fn from(&self) -> (r: bool)
        ensures
            r == (*self is From),
    {
        matches!(self, PeerDirection::From)
    }
}

} // verus!
