//! Data shapes of the provider's OAuth and identity payloads, and the
//! membership tier enumeration.
//!
//! These are plain values: the HTTP layer outside the library decodes the
//! provider's JSON into them and hands them in. An identity payload is a
//! heterogeneous list of "included" entries; an entry either matches the
//! membership schema or is ignored, so unknown resource kinds never fail
//! a request.

use vstd::prelude::*;

verus! {

/// A membership level granting access to one piece of gated content.
/// Ordered by increasing privilege (`Bronze < Silver < Gold`), though each
/// tier maps independently to its own output value.
#[derive(Clone, Copy, Debug, PartialEq, Eq, Structural)]
pub enum Tier {
    Bronze,
    Silver,
    Gold,
}

/// Successful response body of the provider's token endpoint.
pub struct AccessToken {
    pub access_token: String,
}

/// Parsed identity payload: the provider's polymorphic side-loaded
/// resource list.
pub struct Identity {
    pub included: Vec<Included>,
}

/// One element of the identity payload's resource list. The identity
/// endpoint returns multiple unrelated resource kinds in one list; an
/// element that does not match the membership schema is carried as
/// `Ignored` and skipped rather than failing the parse.
pub enum Included {
    Membership(Membership),
    Ignored(Ignored),
}

/// An identity-payload element of a shape the resolver does not inspect.
pub struct Ignored {}

/// A membership entry: the campaign it belongs to and its tier title.
pub struct Membership {
    pub relationships: Relationships,
    pub attributes: Attributes,
}

/// Relationship block of a membership entry.
pub struct Relationships {
    pub campaign: Campaign,
}

/// Campaign relationship of a membership entry.
pub struct Campaign {
    pub data: Data,
}

/// Identifier record inside a campaign relationship.
pub struct Data {
    pub id: String,
}

/// Attribute block of a membership entry: the human-readable tier title.
pub struct Attributes {
    pub title: String,
}

impl Clone for Data {
    fn clone(&self) -> (r: Self)
        ensures
            r == *self,
    {
        Data { id: self.id.clone() }
    }
}

impl Clone for Attributes {
    fn clone(&self) -> (r: Self)
        ensures
            r == *self,
    {
        Attributes { title: self.title.clone() }
    }
}

impl Clone for Membership {
    fn clone(&self) -> (r: Self)
        ensures
            r == *self,
    {
        Membership {
            relationships: Relationships {
                campaign: Campaign { data: self.relationships.campaign.data.clone() },
            },
            attributes: self.attributes.clone(),
        }
    }
}

} // verus!
