//! CEN SIRI — the Service Interface for Real-time Information — as a verified
//! data model.
//!
//! SIRI (EN 15531 / CEN/TS 15531) is the European standard for exchanging
//! real-time public transport data. This crate models the SIRI framework (the
//! message envelope, requests and responses, discovery and capabilities, the
//! subscription messages) and the Production Timetable and General Message
//! services on top of it, together with the journey model, references and
//! locations they share.
//!
//! Every constructor states, field by field, the value it builds; every accessor
//! that reports which alternative of a schema choice a value carries states which
//! one it reports. What a value may hold is kept by its type: a duration is always
//! in the lexical form of `xsd:duration`, a timestamp's offset stays within a day,
//! and open content nests at most [`types::AnyContent::MAX_DEPTH`] elements deep.
//!
//! | Module | What it holds |
//! |---|---|
//! | [`framework`] | The `<Siri>` envelope and every framework message |
//! | [`pt`] | Production Timetable: the day's plan |
//! | [`gm`] | General Message: free-form messages on named channels |
//! | [`model`] | The journey model, references and locations shared across services |
//! | [`types`] | Primitive datatypes: identifiers, texts, timestamps, open content |
//! | [`duration`] | The lexical form of `xsd:duration` |
//! | [`enumerations`] | The schema's enumerated code lists |
//! | [`laws`] | What holds across the functions above |

pub mod duration;
pub mod enumerations;
pub mod framework;
pub mod gm;
pub mod laws;
pub mod model;
pub mod pt;
pub mod types;

pub use framework::{
    CheckStatusRequest, CheckStatusResponse, HeartbeatNotification, ServiceDelivery, ServiceRequest,
    Siri, SiriPayload, SubscriptionRequest, SubscriptionResponse,
};
pub use types::{Duration, NaturalLanguageString, ParticipantRef, SubscriptionRef};
