//! General Message (SIRI-GM): free-form messages on named channels.
//!
//! SIRI-GM is the service for everything the structured services cannot say. A
//! producer publishes [`InfoMessage`]s on named channels — `WARNINGS`, `EMERGENCY`,
//! whatever the two ends have agreed — and a consumer subscribes to the channels it
//! wants. The body is deliberately unconstrained: the schema declares it as
//! `xsd:anyType`, so it may be a sentence or a whole document in another vocabulary,
//! and this crate keeps it as [`AnyContent`](crate::types::AnyContent) either way.
//!
//! Ask for it with a [`GeneralMessageRequest`], receive it in a
//! [`GeneralMessageDelivery`].

pub mod capabilities;
pub mod delivery;
pub mod request;

pub use capabilities::{
    GeneralMessageAccessControl, GeneralMessageCapabilitiesResponse, GeneralMessagePermissions,
    GeneralMessageServiceCapabilities, GeneralMessageServicePermission,
    GeneralMessageTopicFiltering, InfoChannelPermission, InfoChannelPermissionItem,
    InfoChannelPermissions,
};
pub use delivery::{GeneralMessageDelivery, InfoMessage, InfoMessageCancellation};
pub use request::{GeneralMessageRequest, GeneralMessageSubscriptionRequest};

use vstd::prelude::*;

verus! {

/// Identifies a channel a producer publishes general messages on.
#[derive(Debug, Clone, PartialEq, Eq, PartialOrd, Ord, Hash)]
pub struct InfoChannelRef(String);

impl View for InfoChannelRef {
    type V = Seq<char>;

    closed spec fn view(&self) -> Seq<char> {
        self.0@
    }
}

impl InfoChannelRef {
    /// Wraps a value of this reference type.
    pub fn new(value: &str) -> (reference: Self)
        ensures
            reference@ == value@,
    {
        InfoChannelRef(value.to_owned())
    }

    /// The underlying text.
    pub fn as_str(&self) -> (text: &str)
        ensures
            text@ == self@,
    {
        self.0.as_str()
    }

    /// Consumes the reference and returns the underlying text.
    pub fn into_inner(self) -> (text: String)
        ensures
            text@ == self@,
    {
        self.0
    }
}

impl AsRef<str> for InfoChannelRef {
    fn as_ref(&self) -> (text: &str)
        ensures
            text@ == self@,
    {
        self.0.as_str()
    }
}

impl From<String> for InfoChannelRef {
    fn from(value: String) -> (reference: Self)
        ensures
            reference@ == value@,
    {
        InfoChannelRef(value)
    }
}

impl vstd::std_specs::convert::FromSpecImpl<String> for InfoChannelRef {
    open spec fn obeys_from_spec() -> bool {
        true
    }

    closed spec fn from_spec(value: String) -> Self {
        InfoChannelRef(value)
    }
}

/// Identifies one general message, so that it can be revised or withdrawn.
#[derive(Debug, Clone, PartialEq, Eq, PartialOrd, Ord, Hash)]
pub struct InfoMessageRef(String);

impl View for InfoMessageRef {
    type V = Seq<char>;

    closed spec fn view(&self) -> Seq<char> {
        self.0@
    }
}

impl InfoMessageRef {
    /// Wraps a value of this reference type.
    pub fn new(value: &str) -> (reference: Self)
        ensures
            reference@ == value@,
    {
        InfoMessageRef(value.to_owned())
    }

    /// The underlying text.
    pub fn as_str(&self) -> (text: &str)
        ensures
            text@ == self@,
    {
        self.0.as_str()
    }

    /// Consumes the reference and returns the underlying text.
    pub fn into_inner(self) -> (text: String)
        ensures
            text@ == self@,
    {
        self.0
    }
}

impl AsRef<str> for InfoMessageRef {
    fn as_ref(&self) -> (text: &str)
        ensures
            text@ == self@,
    {
        self.0.as_str()
    }
}

impl From<String> for InfoMessageRef {
    fn from(value: String) -> (reference: Self)
        ensures
            reference@ == value@,
    {
        InfoMessageRef(value)
    }
}

impl vstd::std_specs::convert::FromSpecImpl<String> for InfoMessageRef {
    open spec fn obeys_from_spec() -> bool {
        true
    }

    closed spec fn from_spec(value: String) -> Self {
        InfoMessageRef(value)
    }
}

} // verus!
