//! Production Timetable (SIRI-PT): the timetable as it is planned.
//!
//! SIRI-PT publishes the day's plan: which runs an operator intends to make, at
//! which stops, at which times, and which connections are planned around them. It
//! is the baseline the real-time services report against.
//!
//! Ask for it with a [`ProductionTimetableRequest`], receive it in a
//! [`ProductionTimetableDelivery`].
//!

pub mod capabilities;
pub mod delivery;
pub mod request;

pub use capabilities::{
    ProductionTimetableCapabilitiesResponse, ProductionTimetablePermissions,
    ProductionTimetableServiceCapabilities, ProductionTimetableSubscriptionPolicy,
    ProductionTimetableTopicFiltering,
};
pub use delivery::{DatedTimetableVersionFrame, ProductionTimetableDelivery};
pub use request::{
    ProductionTimetableRequest, ProductionTimetableSubscriptionRequest, TimetableValidityPeriod,
};
