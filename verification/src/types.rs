//! Primitive datatypes shared by every message: identifiers, texts, durations,
//! timestamps and the open content the schema leaves uninterpreted.

use vstd::prelude::*;

pub use crate::duration::Duration;

verus! {

/// The largest sub-second part a timestamp may carry: a leap second is written as
/// the 60th second of a minute, i.e. with a nanosecond count past one second.
pub const NANOSECOND_LIMIT: u32 = 2_000_000_000;

/// The bound, exclusive, on how far a UTC offset may stray from zero: one day.
pub const OFFSET_LIMIT_SECONDS: i32 = 86_400;

/// An instant, together with the UTC offset it was written in.
///
/// SIRI's timestamps are `xsd:dateTime` values that name an instant, and a document
/// that wrote one with `-05:00` is written back with `-05:00`. The instant is held
/// as seconds since the Unix epoch plus a sub-second part in nanoseconds; the
/// offset in seconds east of UTC. Two timestamps are equal when they name the same
/// instant, whatever offsets they were written in.
#[derive(Debug, Clone, Copy)]
pub struct DateTime {
    seconds: i64,
    nanosecond: u32,
    offset_seconds: i32,
}

impl DateTime {
    /// The sub-second part stays under [`NANOSECOND_LIMIT`] and the offset within a day.
    #[verifier::type_invariant]
    spec fn well_formed(self) -> bool {
        &&& self.nanosecond < NANOSECOND_LIMIT
        &&& -OFFSET_LIMIT_SECONDS < self.offset_seconds < OFFSET_LIMIT_SECONDS
    }

    /// Seconds since the Unix epoch.
    pub closed spec fn spec_seconds(self) -> i64 {
        self.seconds
    }

    /// Nanoseconds past [`Self::spec_seconds`].
    pub closed spec fn spec_nanosecond(self) -> u32 {
        self.nanosecond
    }

    /// Offset from UTC, in seconds east.
    pub closed spec fn spec_offset_seconds(self) -> i32 {
        self.offset_seconds
    }

    /// Whether the three parts make a timestamp.
    pub open spec fn spec_valid_parts(nanosecond: u32, offset_seconds: i32) -> bool {
        &&& nanosecond < NANOSECOND_LIMIT
        &&& -OFFSET_LIMIT_SECONDS < offset_seconds < OFFSET_LIMIT_SECONDS
    }

    /// The timestamp made of an instant and an offset, or `None` when the
    /// sub-second part or the offset is out of range.
    pub fn new(seconds: i64, nanosecond: u32, offset_seconds: i32) -> (timestamp: Option<Self>)
        ensures
            timestamp is Some <==> Self::spec_valid_parts(nanosecond, offset_seconds),
            timestamp matches Some(t) ==> {
                &&& t.spec_seconds() == seconds
                &&& t.spec_nanosecond() == nanosecond
                &&& t.spec_offset_seconds() == offset_seconds
            },
    {
        if nanosecond < NANOSECOND_LIMIT && -OFFSET_LIMIT_SECONDS < offset_seconds
            && offset_seconds < OFFSET_LIMIT_SECONDS {
            Some(DateTime { seconds, nanosecond, offset_seconds })
        } else {
            None
        }
    }

    /// Seconds since the Unix epoch.
    pub fn timestamp(&self) -> (seconds: i64)
        ensures
            seconds == self.spec_seconds(),
    {
        self.seconds
    }

    /// Nanoseconds past [`Self::timestamp`].
    pub fn timestamp_subsec_nanos(&self) -> (nanosecond: u32)
        ensures
            nanosecond == self.spec_nanosecond(),
            nanosecond < NANOSECOND_LIMIT,
    {
        proof {
            use_type_invariant(self);
        }
        self.nanosecond
    }

    /// The offset from UTC the timestamp was written in, in seconds east.
    pub fn offset_seconds(&self) -> (offset_seconds: i32)
        ensures
            offset_seconds == self.spec_offset_seconds(),
            -OFFSET_LIMIT_SECONDS < offset_seconds < OFFSET_LIMIT_SECONDS,
    {
        proof {
            use_type_invariant(self);
        }
        self.offset_seconds
    }

    /// Reads an RFC 3339 timestamp such as `2004-12-17T09:30:47-05:00`, keeping the
    /// offset it was written in; `None` where `text` is not one.
    pub fn parse_from_rfc3339(text: &str) -> (timestamp: Option<Self>)
        ensures
            timestamp is Some <==> (rfc3339_parts(text@) matches Some((_, nanosecond, offset))
                && Self::spec_valid_parts(nanosecond, offset)),
            timestamp matches Some(t) ==> rfc3339_parts(text@) == Some(
                (t.spec_seconds(), t.spec_nanosecond(), t.spec_offset_seconds()),
            ),
    {
        match read_rfc3339(text) {
            Some((seconds, nanosecond, offset_seconds)) => Self::new(
                seconds,
                nanosecond,
                offset_seconds,
            ),
            None => None,
        }
    }

    /// Whether two timestamps name the same instant.
    pub open spec fn spec_same_instant(self, other: Self) -> bool {
        self.spec_seconds() == other.spec_seconds() && self.spec_nanosecond()
            == other.spec_nanosecond()
    }
}

/// What `chrono::DateTime::parse_from_rfc3339` reads from `text`: the seconds
/// since the Unix epoch, the nanoseconds past them and the UTC offset in seconds
/// east, or `None` where it refuses the text.
pub uninterp spec fn rfc3339_parts(text: Seq<char>) -> Option<(i64, u32, i32)>;

/// Calls `chrono::DateTime::parse_from_rfc3339` and takes the parsed value apart
/// with `timestamp`, `timestamp_subsec_nanos` and `offset().local_minus_utc()`.
/// The contract claims only that the outcome is a function of the text alone.
#[verifier::external_body]
fn read_rfc3339(text: &str) -> (parts: Option<(i64, u32, i32)>)
    ensures
        parts == rfc3339_parts(text@),
{
    match chrono::DateTime::parse_from_rfc3339(text) {
        Ok(t) => Some((t.timestamp(), t.timestamp_subsec_nanos(), t.offset().local_minus_utc())),
        Err(_) => None,
    }
}

impl PartialEq for DateTime {
    fn eq(&self, other: &Self) -> (same: bool) {
        self.seconds == other.seconds && self.nanosecond == other.nanosecond
    }
}

impl vstd::std_specs::cmp::PartialEqSpecImpl for DateTime {
    open spec fn obeys_eq_spec() -> bool {
        true
    }

    open spec fn eq_spec(&self, other: &Self) -> bool {
        self.spec_same_instant(*other)
    }
}

impl Eq for DateTime {
}

/// A `Status` flag as the schema reads it: an absent flag means `true`.
pub open spec fn status_or_default(status: Option<bool>) -> bool {
    match status {
        Some(flag) => flag,
        None => true,
    }
}

/// A double-precision number, carried by its IEEE 754 bit pattern.
///
/// Positions, bearings and measurements are `xsd:double` in the schema. The
/// library stores and hands them back but never computes with them, so it keeps
/// the exact bits and leaves the arithmetic to the caller.
#[derive(Debug, Clone, Copy, PartialEq, Eq, Hash)]
pub struct Binary64 {
    /// The IEEE 754 binary64 encoding of the number.
    pub bits: u64,
}

impl Binary64 {
    /// The number with the given bit pattern.
    pub fn from_bits(bits: u64) -> (number: Self)
        ensures
            number.bits == bits,
    {
        Binary64 { bits }
    }

    /// The number's bit pattern.
    pub fn to_bits(self) -> (bits: u64)
        ensures
            bits == self.bits,
    {
        self.bits
    }
}

/// An element with no content, whose presence is what it says.
#[derive(Debug, Clone, Copy, Default, PartialEq, Eq, Hash)]
pub struct Empty;

impl Empty {
    /// The empty element.
    pub fn new() -> (empty: Self)
        ensures
            empty == Empty,
    {
        Empty
    }
}

/// A text in a stated natural language.
#[derive(Debug, Clone, Default, PartialEq, Eq, Hash)]
pub struct NaturalLanguageString {
    /// The language the text is written in, e.g. `EN`.
    pub lang: Option<String>,
    /// The text.
    pub value: String,
}

impl NaturalLanguageString {
    /// A text without a stated language.
    pub fn new(value: &str) -> (text: Self)
        ensures
            text.lang is None,
            text.value@ == value@,
    {
        NaturalLanguageString { lang: None, value: value.to_owned() }
    }

    /// A text in the given language.
    pub fn with_lang(lang: &str, value: &str) -> (text: Self)
        ensures
            text.lang matches Some(written) && written@ == lang@,
            text.value@ == value@,
    {
        NaturalLanguageString { lang: Some(lang.to_owned()), value: value.to_owned() }
    }
}

/// The name of a place in a stated natural language.
#[derive(Debug, Clone, Default, PartialEq, Eq, Hash)]
pub struct NaturalLanguagePlaceName {
    /// The language the name is written in, e.g. `EN`.
    pub lang: Option<String>,
    /// The name.
    pub value: String,
}

impl NaturalLanguagePlaceName {
    /// A name without a stated language.
    pub fn new(value: &str) -> (name: Self)
        ensures
            name.lang is None,
            name.value@ == value@,
    {
        NaturalLanguagePlaceName { lang: None, value: value.to_owned() }
    }

    /// A name in the given language.
    pub fn with_lang(lang: &str, value: &str) -> (name: Self)
        ensures
            name.lang matches Some(written) && written@ == lang@,
            name.value@ == value@,
    {
        NaturalLanguagePlaceName { lang: Some(lang.to_owned()), value: value.to_owned() }
    }
}

/// A boolean the schema gives a default of `true`: absent means allowed.
#[derive(Debug, Clone, Copy, Default, PartialEq, Eq, Hash)]
pub struct DefaultedBoolean {
    /// The value as written, if it was written.
    pub value: Option<bool>,
}

impl DefaultedBoolean {
    /// The value, or `true` when none was written.
    pub fn get(&self) -> (value: bool)
        ensures
            value == match self.value {
                Some(written) => written,
                None => true,
            },
    {
        match self.value {
            Some(written) => written,
            None => true,
        }
    }
}

/// One attribute of an element of open content.
#[derive(Debug, PartialEq, Eq, Hash)]
pub struct ContentAttribute {
    /// The attribute's qualified name.
    pub name: String,
    /// Its value.
    pub value: String,
}

impl Clone for ContentAttribute {
    fn clone(&self) -> (copy: Self)
        ensures
            copy == *self,
    {
        ContentAttribute { name: self.name.clone(), value: self.value.clone() }
    }
}

/// One event of open content, read in document order.
#[derive(Debug, PartialEq, Eq, Hash)]
pub enum ContentEvent {
    /// The start of an element, with its qualified name and attributes.
    Start {
        /// The element's qualified name.
        name: String,
        /// Its attributes, in document order.
        attributes: Vec<ContentAttribute>,
    },
    /// The end of the innermost open element.
    End,
    /// Character data.
    Text(String),
}

impl ContentEvent {
    /// Whether `other` is the same event: the same kind, name, attributes and text.
    pub open spec fn spec_same(self, other: Self) -> bool {
        match (self, other) {
            (
                ContentEvent::Start { name, attributes },
                ContentEvent::Start { name: other_name, attributes: other_attributes },
            ) => name == other_name && attributes@ == other_attributes@,
            (ContentEvent::End, ContentEvent::End) => true,
            (ContentEvent::Text(text), ContentEvent::Text(other_text)) => text == other_text,
            _ => false,
        }
    }

    /// What the event does to the number of open elements: a start opens one and
    /// an end closes one.
    pub open spec fn spec_nesting_step(self) -> int {
        match self {
            ContentEvent::Start { .. } => 1,
            ContentEvent::End => -1,
            ContentEvent::Text(_) => 0,
        }
    }
}

impl Clone for ContentEvent {
    fn clone(&self) -> (copy: Self)
        ensures
            copy.spec_same(*self),
    {
        match self {
            ContentEvent::Start { name, attributes } => {
                let copied = attributes.clone();
                assert(copied@ =~= attributes@);
                ContentEvent::Start { name: name.clone(), attributes: copied }
            },
            ContentEvent::End => ContentEvent::End,
            ContentEvent::Text(text) => ContentEvent::Text(text.clone()),
        }
    }
}

/// How many elements are open after a run of events whose nesting steps are `steps`.
pub open spec fn open_elements(steps: Seq<int>) -> int
    decreases steps.len(),
{
    if steps.len() == 0 {
        0
    } else {
        open_elements(steps.drop_last()) + steps.last()
    }
}

/// The nesting steps of a run of events.
pub open spec fn nesting_steps(events: Seq<ContentEvent>) -> Seq<int> {
    events.map_values(|event: ContentEvent| event.spec_nesting_step())
}

/// Whether `events` is a run of whole elements and text nested at most
/// [`AnyContent::MAX_DEPTH`] deep: no end closes an element that was not
/// started, no start opens one past the bound, and every element started ends.
pub open spec fn is_well_nested(events: Seq<ContentEvent>) -> bool {
    let steps = nesting_steps(events);
    &&& forall|n: int|
        0 <= n <= steps.len() ==> 0 <= #[trigger] open_elements(steps.take(n))
            <= AnyContent::MAX_DEPTH
    &&& open_elements(steps) == 0
}

/// Content the schema leaves open, kept as the subtree it is.
///
/// An `<Extensions>` payload, a general-message body and an embedded record of
/// another standard belong to profiles outside SIRI; they are held node by node
/// and written back unchanged. The subtree is held as the run of start, end and
/// text events it reads as, so that nesting costs no recursion, and it nests at
/// most [`AnyContent::MAX_DEPTH`] elements deep, so that no reader or writer that
/// walks it recursively can be driven past that depth.
#[derive(Debug, PartialEq, Eq, Hash)]
pub struct AnyContent {
    events: Vec<ContentEvent>,
}

impl View for AnyContent {
    type V = Seq<ContentEvent>;

    closed spec fn view(&self) -> Seq<ContentEvent> {
        self.events@
    }
}

impl AnyContent {
    /// How deep elements of open content may nest.
    pub const MAX_DEPTH: usize = 64;

    /// The events are whole elements and text, nested at most [`Self::MAX_DEPTH`] deep.
    #[verifier::type_invariant]
    spec fn well_formed(self) -> bool {
        is_well_nested(self.events@)
    }

    /// Content made of one run of character data.
    pub fn text(value: String) -> (content: Self)
        ensures
            content@ == seq![ContentEvent::Text(value)],
    {
        let events = vec![ContentEvent::Text(value)];
        proof {
            let steps = nesting_steps(events@);
            assert(events@ == seq![ContentEvent::Text(value)]);
            assert(steps =~= seq![0int]);
            assert(steps.take(0) =~= Seq::<int>::empty());
            assert(steps.take(1) =~= steps);
            assert(steps.drop_last() =~= Seq::<int>::empty());
            assert(open_elements(steps.take(0)) == 0);
            assert(open_elements(steps) == 0);
            assert forall|n: int| 0 <= n <= steps.len() implies 0 <= #[trigger] open_elements(
                steps.take(n),
            ) <= Self::MAX_DEPTH by {
                if n == 1 {
                    assert(steps.take(n) =~= steps);
                } else {
                    assert(steps.take(n) =~= Seq::<int>::empty());
                }
            }
        }
        AnyContent { events }
    }

    /// The content made of `events`, or `None` where they are not whole elements
    /// and text nested at most [`Self::MAX_DEPTH`] deep.
    pub fn from_events(events: Vec<ContentEvent>) -> (content: Option<Self>)
        ensures
            content is Some <==> is_well_nested(events@),
            content matches Some(c) ==> c@ == events@,
    {
        let ghost steps = nesting_steps(events@);
        let mut depth: usize = 0;
        let mut i: usize = 0;
        assert(steps.take(0) =~= Seq::<int>::empty());
        while i < events.len()
            invariant
                i <= events.len(),
                steps == nesting_steps(events@),
                depth == open_elements(steps.take(i as int)),
                depth <= Self::MAX_DEPTH,
                forall|n: int|
                    0 <= n <= i ==> 0 <= #[trigger] open_elements(steps.take(n))
                        <= Self::MAX_DEPTH,
            decreases events.len() - i,
        {
            assert(steps.take(i + 1).drop_last() =~= steps.take(i as int));
            assert(steps.take(i + 1).last() == events@[i as int].spec_nesting_step());
            match &events[i] {
                ContentEvent::Start { .. } => {
                    if depth == Self::MAX_DEPTH {
                        assert(open_elements(steps.take(i + 1)) > Self::MAX_DEPTH);
                        return None;
                    }
                    depth = depth + 1;
                },
                ContentEvent::End => {
                    if depth == 0 {
                        assert(open_elements(steps.take(i + 1)) < 0);
                        return None;
                    }
                    depth = depth - 1;
                },
                ContentEvent::Text(_) => {},
            }
            i = i + 1;
        }
        assert(steps.take(i as int) =~= steps);
        if depth != 0 {
            return None;
        }
        Some(AnyContent { events })
    }

    /// The events, in document order.
    pub fn events(&self) -> (events: &Vec<ContentEvent>)
        ensures
            events@ == self@,
            is_well_nested(events@),
    {
        proof {
            use_type_invariant(&self);
        }
        &self.events
    }

    /// Consumes the content and returns its events, in document order.
    pub fn into_events(self) -> (events: Vec<ContentEvent>)
        ensures
            events@ == self@,
            is_well_nested(events@),
    {
        proof {
            use_type_invariant(&self);
        }
        self.events
    }
}

impl Clone for AnyContent {
    fn clone(&self) -> (copy: Self)
        ensures
            copy@.len() == self@.len(),
            forall|i: int| 0 <= i < self@.len() ==> #[trigger] copy@[i].spec_same(self@[i]),
    {
        proof {
            use_type_invariant(self);
        }
        let mut events: Vec<ContentEvent> = Vec::new();
        let mut i: usize = 0;
        while i < self.events.len()
            invariant
                i <= self.events.len(),
                events@.len() == i,
                forall|j: int| 0 <= j < i ==> #[trigger] events@[j].spec_same(self.events@[j]),
            decreases self.events.len() - i,
        {
            events.push(self.events[i].clone());
            i = i + 1;
        }
        proof {
            assert(nesting_steps(events@) =~= nesting_steps(self.events@)) by {
                assert forall|j: int| 0 <= j < events@.len() implies #[trigger] events@[j].spec_nesting_step()
                    == self.events@[j].spec_nesting_step() by {
                    assert(events@[j].spec_same(self.events@[j]));
                }
            }
        }
        AnyContent { events }
    }
}

impl Default for AnyContent {
    fn default() -> (content: Self)
        ensures
            content@.len() == 0,
    {
        let events: Vec<ContentEvent> = Vec::new();
        proof {
            assert(nesting_steps(events@) =~= Seq::<int>::empty());
            assert(nesting_steps(events@).take(0) =~= Seq::<int>::empty());
        }
        AnyContent { events }
    }
}

/// Implementation-defined content a message may carry.
pub type Extensions = AnyContent;

/// A period with both ends stated.
#[derive(Debug, Clone, PartialEq, Eq)]
pub struct ClosedTimestampRange {
    /// When the period starts.
    pub start_time: DateTime,
    /// When it ends.
    pub end_time: DateTime,
}

impl ClosedTimestampRange {
    /// The period from `start_time` to `end_time`.
    pub fn between(start_time: DateTime, end_time: DateTime) -> (range: Self)
        ensures
            range.start_time == start_time,
            range.end_time == end_time,
    {
        ClosedTimestampRange { start_time, end_time }
    }
}

/// A period that has started and may not have ended, as a producer reports it.
#[derive(Debug, Clone, PartialEq, Eq)]
pub struct HalfOpenTimestampOutputRange {
    /// When the period started.
    pub start_time: DateTime,
    /// When it ends, if that is known.
    pub end_time: Option<DateTime>,
}

/// A period a requestor asks about, either end of which may be left open.
#[derive(Debug, Clone, Default, PartialEq, Eq)]
pub struct HalfOpenTimestampInputRange {
    /// When the period starts, if it is bounded below.
    pub start_time: Option<DateTime>,
    /// When it ends, if it is bounded above.
    pub end_time: Option<DateTime>,
}

/// A band of the day, e.g. `07:00` to `09:30`, kept as written.
#[derive(Debug, Clone, PartialEq, Eq, Hash)]
pub struct HalfOpenTimeRange {
    /// When the band starts, as an `xsd:time`.
    pub start_time: String,
    /// When it ends, as an `xsd:time`, if it is bounded.
    pub end_time: Option<String>,
}

/// A timestamp as written, which names an instant only when it states an offset.
#[derive(Debug, Clone, PartialEq, Eq, Hash)]
pub struct Timestamp(String);

impl View for Timestamp {
    type V = Seq<char>;

    closed spec fn view(&self) -> Seq<char> {
        self.0@
    }
}

impl Timestamp {
    /// The timestamp written as `value`.
    pub fn new(value: &str) -> (timestamp: Self)
        ensures
            timestamp@ == value@,
    {
        Timestamp(value.to_owned())
    }

    /// The timestamp as written.
    pub fn as_str(&self) -> (text: &str)
        ensures
            text@ == self@,
    {
        self.0.as_str()
    }
}

/// Identifies a participant in a SIRI exchange, e.g. a producer or a consumer.
#[derive(Debug, Clone, PartialEq, Eq, PartialOrd, Ord, Hash)]
pub struct ParticipantRef(String);

impl View for ParticipantRef {
    type V = Seq<char>;

    closed spec fn view(&self) -> Seq<char> {
        self.0@
    }
}

impl ParticipantRef {
    /// Wraps a value of this reference type.
    pub fn new(value: &str) -> (reference: Self)
        ensures
            reference@ == value@,
    {
        ParticipantRef(value.to_owned())
    }

    /// The underlying text.
    pub fn as_str(&self) -> (text: &str)
        ensures
            text@ == self@,
    {
        self.0.as_str()
    }

    /// Consumes the reference and returns the underlying text.
    pub fn into_inner(self) -> (text: String)
        ensures
            text@ == self@,
    {
        self.0
    }
}

impl AsRef<str> for ParticipantRef {
    fn as_ref(&self) -> (text: &str)
        ensures
            text@ == self@,
    {
        self.0.as_str()
    }
}

impl From<String> for ParticipantRef {
    fn from(value: String) -> (reference: Self)
        ensures
            reference@ == value@,
    {
        ParticipantRef(value)
    }
}

impl vstd::std_specs::convert::FromSpecImpl<String> for ParticipantRef {
    open spec fn obeys_from_spec() -> bool {
        true
    }

    closed spec fn from_spec(value: String) -> Self {
        ParticipantRef(value)
    }
}

/// Identifies a capability a service may offer.
#[derive(Debug, Clone, PartialEq, Eq, PartialOrd, Ord, Hash)]
pub struct CapabilityRef(String);

impl View for CapabilityRef {
    type V = Seq<char>;

    closed spec fn view(&self) -> Seq<char> {
        self.0@
    }
}

impl CapabilityRef {
    /// Wraps a value of this reference type.
    pub fn new(value: &str) -> (reference: Self)
        ensures
            reference@ == value@,
    {
        CapabilityRef(value.to_owned())
    }

    /// The underlying text.
    pub fn as_str(&self) -> (text: &str)
        ensures
            text@ == self@,
    {
        self.0.as_str()
    }

    /// Consumes the reference and returns the underlying text.
    pub fn into_inner(self) -> (text: String)
        ensures
            text@ == self@,
    {
        self.0
    }
}

impl AsRef<str> for CapabilityRef {
    fn as_ref(&self) -> (text: &str)
        ensures
            text@ == self@,
    {
        self.0.as_str()
    }
}

impl From<String> for CapabilityRef {
    fn from(value: String) -> (reference: Self)
        ensures
            reference@ == value@,
    {
        CapabilityRef(value)
    }
}

impl vstd::std_specs::convert::FromSpecImpl<String> for CapabilityRef {
    open spec fn obeys_from_spec() -> bool {
        true
    }

    closed spec fn from_spec(value: String) -> Self {
        CapabilityRef(value)
    }
}

/// Identifies a country.
#[derive(Debug, Clone, PartialEq, Eq, PartialOrd, Ord, Hash)]
pub struct CountryRef(String);

impl View for CountryRef {
    type V = Seq<char>;

    closed spec fn view(&self) -> Seq<char> {
        self.0@
    }
}

impl CountryRef {
    /// Wraps a value of this reference type.
    pub fn new(value: &str) -> (reference: Self)
        ensures
            reference@ == value@,
    {
        CountryRef(value.to_owned())
    }

    /// The underlying text.
    pub fn as_str(&self) -> (text: &str)
        ensures
            text@ == self@,
    {
        self.0.as_str()
    }

    /// Consumes the reference and returns the underlying text.
    pub fn into_inner(self) -> (text: String)
        ensures
            text@ == self@,
    {
        self.0
    }
}

impl AsRef<str> for CountryRef {
    fn as_ref(&self) -> (text: &str)
        ensures
            text@ == self@,
    {
        self.0.as_str()
    }
}

impl From<String> for CountryRef {
    fn from(value: String) -> (reference: Self)
        ensures
            reference@ == value@,
    {
        CountryRef(value)
    }
}

impl vstd::std_specs::convert::FromSpecImpl<String> for CountryRef {
    open spec fn obeys_from_spec() -> bool {
        true
    }

    closed spec fn from_spec(value: String) -> Self {
        CountryRef(value)
    }
}

/// The address of an endpoint messages are sent to.
#[derive(Debug, Clone, PartialEq, Eq, PartialOrd, Ord, Hash)]
pub struct EndpointAddress(String);

impl View for EndpointAddress {
    type V = Seq<char>;

    closed spec fn view(&self) -> Seq<char> {
        self.0@
    }
}

impl EndpointAddress {
    /// Wraps a value of this reference type.
    pub fn new(value: &str) -> (reference: Self)
        ensures
            reference@ == value@,
    {
        EndpointAddress(value.to_owned())
    }

    /// The underlying text.
    pub fn as_str(&self) -> (text: &str)
        ensures
            text@ == self@,
    {
        self.0.as_str()
    }

    /// Consumes the reference and returns the underlying text.
    pub fn into_inner(self) -> (text: String)
        ensures
            text@ == self@,
    {
        self.0
    }
}

impl AsRef<str> for EndpointAddress {
    fn as_ref(&self) -> (text: &str)
        ensures
            text@ == self@,
    {
        self.0.as_str()
    }
}

impl From<String> for EndpointAddress {
    fn from(value: String) -> (reference: Self)
        ensures
            reference@ == value@,
    {
        EndpointAddress(value)
    }
}

impl vstd::std_specs::convert::FromSpecImpl<String> for EndpointAddress {
    open spec fn obeys_from_spec() -> bool {
        true
    }

    closed spec fn from_spec(value: String) -> Self {
        EndpointAddress(value)
    }
}

/// Identifier a sender puts on one of its messages.
#[derive(Debug, Clone, PartialEq, Eq, PartialOrd, Ord, Hash)]
pub struct MessageQualifier(String);

impl View for MessageQualifier {
    type V = Seq<char>;

    closed spec fn view(&self) -> Seq<char> {
        self.0@
    }
}

impl MessageQualifier {
    /// Wraps a value of this reference type.
    pub fn new(value: &str) -> (reference: Self)
        ensures
            reference@ == value@,
    {
        MessageQualifier(value.to_owned())
    }

    /// The underlying text.
    pub fn as_str(&self) -> (text: &str)
        ensures
            text@ == self@,
    {
        self.0.as_str()
    }

    /// Consumes the reference and returns the underlying text.
    pub fn into_inner(self) -> (text: String)
        ensures
            text@ == self@,
    {
        self.0
    }
}

impl AsRef<str> for MessageQualifier {
    fn as_ref(&self) -> (text: &str)
        ensures
            text@ == self@,
    {
        self.0.as_str()
    }
}

impl From<String> for MessageQualifier {
    fn from(value: String) -> (reference: Self)
        ensures
            reference@ == value@,
    {
        MessageQualifier(value)
    }
}

impl vstd::std_specs::convert::FromSpecImpl<String> for MessageQualifier {
    open spec fn obeys_from_spec() -> bool {
        true
    }

    closed spec fn from_spec(value: String) -> Self {
        MessageQualifier(value)
    }
}

/// A reference to a message sent earlier.
#[derive(Debug, Clone, PartialEq, Eq, PartialOrd, Ord, Hash)]
pub struct MessageRef(String);

impl View for MessageRef {
    type V = Seq<char>;

    closed spec fn view(&self) -> Seq<char> {
        self.0@
    }
}

impl MessageRef {
    /// Wraps a value of this reference type.
    pub fn new(value: &str) -> (reference: Self)
        ensures
            reference@ == value@,
    {
        MessageRef(value.to_owned())
    }

    /// The underlying text.
    pub fn as_str(&self) -> (text: &str)
        ensures
            text@ == self@,
    {
        self.0.as_str()
    }

    /// Consumes the reference and returns the underlying text.
    pub fn into_inner(self) -> (text: String)
        ensures
            text@ == self@,
    {
        self.0
    }
}

impl AsRef<str> for MessageRef {
    fn as_ref(&self) -> (text: &str)
        ensures
            text@ == self@,
    {
        self.0.as_str()
    }
}

impl From<String> for MessageRef {
    fn from(value: String) -> (reference: Self)
        ensures
            reference@ == value@,
    {
        MessageRef(value)
    }
}

impl vstd::std_specs::convert::FromSpecImpl<String> for MessageRef {
    open spec fn obeys_from_spec() -> bool {
        true
    }

    closed spec fn from_spec(value: String) -> Self {
        MessageRef(value)
    }
}

/// Identifies a subscription within the subscriber that opened it.
#[derive(Debug, Clone, PartialEq, Eq, PartialOrd, Ord, Hash)]
pub struct SubscriptionQualifier(String);

impl View for SubscriptionQualifier {
    type V = Seq<char>;

    closed spec fn view(&self) -> Seq<char> {
        self.0@
    }
}

impl SubscriptionQualifier {
    /// Wraps a value of this reference type.
    pub fn new(value: &str) -> (reference: Self)
        ensures
            reference@ == value@,
    {
        SubscriptionQualifier(value.to_owned())
    }

    /// The underlying text.
    pub fn as_str(&self) -> (text: &str)
        ensures
            text@ == self@,
    {
        self.0.as_str()
    }

    /// Consumes the reference and returns the underlying text.
    pub fn into_inner(self) -> (text: String)
        ensures
            text@ == self@,
    {
        self.0
    }
}

impl AsRef<str> for SubscriptionQualifier {
    fn as_ref(&self) -> (text: &str)
        ensures
            text@ == self@,
    {
        self.0.as_str()
    }
}

impl From<String> for SubscriptionQualifier {
    fn from(value: String) -> (reference: Self)
        ensures
            reference@ == value@,
    {
        SubscriptionQualifier(value)
    }
}

impl vstd::std_specs::convert::FromSpecImpl<String> for SubscriptionQualifier {
    open spec fn obeys_from_spec() -> bool {
        true
    }

    closed spec fn from_spec(value: String) -> Self {
        SubscriptionQualifier(value)
    }
}

/// A reference to a subscription.
#[derive(Debug, Clone, PartialEq, Eq, PartialOrd, Ord, Hash)]
pub struct SubscriptionRef(String);

impl View for SubscriptionRef {
    type V = Seq<char>;

    closed spec fn view(&self) -> Seq<char> {
        self.0@
    }
}

impl SubscriptionRef {
    /// Wraps a value of this reference type.
    pub fn new(value: &str) -> (reference: Self)
        ensures
            reference@ == value@,
    {
        SubscriptionRef(value.to_owned())
    }

    /// The underlying text.
    pub fn as_str(&self) -> (text: &str)
        ensures
            text@ == self@,
    {
        self.0.as_str()
    }

    /// Consumes the reference and returns the underlying text.
    pub fn into_inner(self) -> (text: String)
        ensures
            text@ == self@,
    {
        self.0
    }
}

impl AsRef<str> for SubscriptionRef {
    fn as_ref(&self) -> (text: &str)
        ensures
            text@ == self@,
    {
        self.0.as_str()
    }
}

impl From<String> for SubscriptionRef {
    fn from(value: String) -> (reference: Self)
        ensures
            reference@ == value@,
    {
        SubscriptionRef(value)
    }
}

impl vstd::std_specs::convert::FromSpecImpl<String> for SubscriptionRef {
    open spec fn obeys_from_spec() -> bool {
        true
    }

    closed spec fn from_spec(value: String) -> Self {
        SubscriptionRef(value)
    }
}

/// Identifies a filter a subscription was opened with.
#[derive(Debug, Clone, PartialEq, Eq, PartialOrd, Ord, Hash)]
pub struct SubscriptionFilterRef(String);

impl View for SubscriptionFilterRef {
    type V = Seq<char>;

    closed spec fn view(&self) -> Seq<char> {
        self.0@
    }
}

impl SubscriptionFilterRef {
    /// Wraps a value of this reference type.
    pub fn new(value: &str) -> (reference: Self)
        ensures
            reference@ == value@,
    {
        SubscriptionFilterRef(value.to_owned())
    }

    /// The underlying text.
    pub fn as_str(&self) -> (text: &str)
        ensures
            text@ == self@,
    {
        self.0.as_str()
    }

    /// Consumes the reference and returns the underlying text.
    pub fn into_inner(self) -> (text: String)
        ensures
            text@ == self@,
    {
        self.0
    }
}

impl AsRef<str> for SubscriptionFilterRef {
    fn as_ref(&self) -> (text: &str)
        ensures
            text@ == self@,
    {
        self.0.as_str()
    }
}

impl From<String> for SubscriptionFilterRef {
    fn from(value: String) -> (reference: Self)
        ensures
            reference@ == value@,
    {
        SubscriptionFilterRef(value)
    }
}

impl vstd::std_specs::convert::FromSpecImpl<String> for SubscriptionFilterRef {
    open spec fn obeys_from_spec() -> bool {
        true
    }

    closed spec fn from_spec(value: String) -> Self {
        SubscriptionFilterRef(value)
    }
}

/// Identifies one item of a delivery.
#[derive(Debug, Clone, PartialEq, Eq, PartialOrd, Ord, Hash)]
pub struct ItemIdentifier(String);

impl View for ItemIdentifier {
    type V = Seq<char>;

    closed spec fn view(&self) -> Seq<char> {
        self.0@
    }
}

impl ItemIdentifier {
    /// Wraps a value of this reference type.
    pub fn new(value: &str) -> (reference: Self)
        ensures
            reference@ == value@,
    {
        ItemIdentifier(value.to_owned())
    }

    /// The underlying text.
    pub fn as_str(&self) -> (text: &str)
        ensures
            text@ == self@,
    {
        self.0.as_str()
    }

    /// Consumes the reference and returns the underlying text.
    pub fn into_inner(self) -> (text: String)
        ensures
            text@ == self@,
    {
        self.0
    }
}

impl AsRef<str> for ItemIdentifier {
    fn as_ref(&self) -> (text: &str)
        ensures
            text@ == self@,
    {
        self.0.as_str()
    }
}

impl From<String> for ItemIdentifier {
    fn from(value: String) -> (reference: Self)
        ensures
            reference@ == value@,
    {
        ItemIdentifier(value)
    }
}

impl vstd::std_specs::convert::FromSpecImpl<String> for ItemIdentifier {
    open spec fn obeys_from_spec() -> bool {
        true
    }

    closed spec fn from_spec(value: String) -> Self {
        ItemIdentifier(value)
    }
}

/// A reference to an item of a delivery.
#[derive(Debug, Clone, PartialEq, Eq, PartialOrd, Ord, Hash)]
pub struct ItemRef(String);

impl View for ItemRef {
    type V = Seq<char>;

    closed spec fn view(&self) -> Seq<char> {
        self.0@
    }
}

impl ItemRef {
    /// Wraps a value of this reference type.
    pub fn new(value: &str) -> (reference: Self)
        ensures
            reference@ == value@,
    {
        ItemRef(value.to_owned())
    }

    /// The underlying text.
    pub fn as_str(&self) -> (text: &str)
        ensures
            text@ == self@,
    {
        self.0.as_str()
    }

    /// Consumes the reference and returns the underlying text.
    pub fn into_inner(self) -> (text: String)
        ensures
            text@ == self@,
    {
        self.0
    }
}

impl AsRef<str> for ItemRef {
    fn as_ref(&self) -> (text: &str)
        ensures
            text@ == self@,
    {
        self.0.as_str()
    }
}

impl From<String> for ItemRef {
    fn from(value: String) -> (reference: Self)
        ensures
            reference@ == value@,
    {
        ItemRef(value)
    }
}

impl vstd::std_specs::convert::FromSpecImpl<String> for ItemRef {
    open spec fn obeys_from_spec() -> bool {
        true
    }

    closed spec fn from_spec(value: String) -> Self {
        ItemRef(value)
    }
}

} // verus!
