//! Geographic positions.
use crate::types::Binary64;
use vstd::prelude::*;

verus! {

/// A point on the earth.
///
/// The schema offers two ways to state a position — WGS 84 longitude/latitude, or
/// a `Coordinates` string in the projection named by `srs_name` — so the fields
/// for both are optional. Build one with [`Location::wgs84`] or
/// [`Location::coordinates`] and read back which form is present with
/// [`Location::position`].
#[derive(Debug, Clone, Default, PartialEq)]
pub struct Location {
    /// Identifier of this location within the document.
    pub id: Option<String>,
    /// Name of the spatial reference system `coordinates` is expressed in.
    pub srs_name: Option<String>,
    /// Degrees east of the prime meridian, between -180 and 180.
    pub longitude: Option<Binary64>,
    /// Degrees north of the equator, between -90 and 90.
    pub latitude: Option<Binary64>,
    /// Metres above sea level, between -1000 and 5000.
    pub altitude: Option<Binary64>,
    /// The position in the projection named by `srs_name`, as a coordinate list.
    pub coordinates: Option<String>,
    /// Precision of the position in metres.
    pub precision: Option<u64>,
}

/// Which of the two ways of stating a position a [`Location`] uses.
#[derive(Debug, Clone, Copy, PartialEq)]
#[non_exhaustive]
pub enum Position<'a> {
    /// WGS 84 degrees, with an optional altitude in metres.
    Wgs84 {
        /// Degrees east of the prime meridian.
        longitude: Binary64,
        /// Degrees north of the equator.
        latitude: Binary64,
        /// Metres above sea level.
        altitude: Option<Binary64>,
    },
    /// A coordinate list in the projection named by the location's `srs_name`.
    Coordinates(&'a str),
}

impl Location {
    /// A WGS 84 position.
    pub fn wgs84(longitude: Binary64, latitude: Binary64) -> (result: Self)
        ensures
            result.id is None,
            result.srs_name is None,
            result.longitude == Some(longitude),
            result.latitude == Some(latitude),
            result.altitude is None,
            result.coordinates is None,
            result.precision is None,
    {
        Self {
            id: None,
            srs_name: None,
            longitude: Some(longitude),
            latitude: Some(latitude),
            altitude: None,
            coordinates: None,
            precision: None,
        }
    }

    /// A position in the projection named by `srs_name`.
    pub fn coordinates(srs_name: String, coordinates: String) -> (result: Self)
        ensures
            result.id is None,
            result.srs_name == Some(srs_name),
            result.longitude is None,
            result.latitude is None,
            result.altitude is None,
            result.coordinates == Some(coordinates),
            result.precision is None,
    {
        Self {
            id: None,
            srs_name: Some(srs_name),
            longitude: None,
            latitude: None,
            altitude: None,
            coordinates: Some(coordinates),
            precision: None,
        }
    }

    /// Which alternative of the schema's choice this location carries, or `None`
    /// when neither is present. WGS 84 degrees are reported when both longitude
    /// and latitude are given, whatever else is.
    pub fn position(&self) -> (position: Option<Position<'_>>)
        ensures
            match position {
                Some(Position::Wgs84 { longitude, latitude, altitude }) => {
                    &&& self.longitude == Some(longitude)
                    &&& self.latitude == Some(latitude)
                    &&& self.altitude == altitude
                },
                Some(Position::Coordinates(coordinates)) => {
                    &&& !(self.longitude is Some && self.latitude is Some)
                    &&& self.coordinates matches Some(list) && list@ == coordinates@
                },
                None => {
                    &&& !(self.longitude is Some && self.latitude is Some)
                    &&& self.coordinates is None
                },
            },
    {
        match (self.longitude, self.latitude) {
            (Some(longitude), Some(latitude)) => {
                return Some(Position::Wgs84 { longitude, latitude, altitude: self.altitude });
            },
            _ => {},
        }
        match &self.coordinates {
            Some(coordinates) => Some(Position::Coordinates(coordinates.as_str())),
            None => None,
        }
    }
}

/// A rectangular area, given by two opposite corners.
#[derive(Debug, Clone, PartialEq)]
pub struct BoundingBox {
    /// North-west corner.
    pub upper_left: Location,
    /// South-east corner.
    pub lower_right: Location,
}

impl BoundingBox {
    /// A box spanning the two given corners.
    pub fn new(upper_left: Location, lower_right: Location) -> (result: Self)
        ensures
            result.upper_left == upper_left,
            result.lower_right == lower_right,
    {
        Self {
            upper_left,
            lower_right,
        }
    }
}

/// An open line, given as an ordered list of at least two points.
#[derive(Debug, Clone, Default, PartialEq)]
pub struct LineShape {
    /// The points along the line, in order of travel.
    pub point: Vec<Location>,
}

/// A circle, given by its centre and how far it reaches.
#[derive(Debug, Clone, Default, PartialEq)]
pub struct CircularArea {
    /// Identifier of this area within the document.
    pub id: Option<String>,
    /// Name of the spatial reference system `coordinates` is expressed in.
    pub srs_name: Option<String>,
    /// Degrees east of the prime meridian, between -180 and 180.
    pub longitude: Option<Binary64>,
    /// Degrees north of the equator, between -90 and 90.
    pub latitude: Option<Binary64>,
    /// Metres above sea level, between -1000 and 5000.
    pub altitude: Option<Binary64>,
    /// The centre in the projection named by `srs_name`, as a coordinate list.
    pub coordinates: Option<String>,
    /// Precision of the centre in metres.
    pub precision: Option<u64>,
    /// How far the area reaches from the centre, in metres.
    pub radius: Option<u64>,
}

/// An area a service may be hailed or booked within, rather than a fixed stop.
///
/// The schema offers three ways to draw one and the fields for all three are
/// optional; [`FlexibleArea::shape`] reports which is present.
#[derive(Debug, Clone, Default, PartialEq)]
pub struct FlexibleArea {
    /// The area as a rectangle.
    pub bounding_box: Option<BoundingBox>,
    /// The area as a circle.
    pub circular_area: Option<CircularArea>,
    /// The area as a GML polygon.
    pub polygon: Option<Polygon>,
}

/// Which of the three ways of drawing a [`FlexibleArea`] is used.
#[derive(Debug, Clone, Copy, PartialEq)]
#[non_exhaustive]
pub enum FlexibleShape<'a> {
    /// A rectangle spanned by two opposite corners.
    BoundingBox(&'a BoundingBox),
    /// A circle around a centre.
    CircularArea(&'a CircularArea),
    /// A GML polygon.
    Polygon(&'a Polygon),
}

impl FlexibleArea {
    /// A rectangular area.
    pub fn bounding_box(bounding_box: BoundingBox) -> (result: Self)
        ensures
            result.bounding_box == Some(bounding_box),
            result.circular_area is None,
            result.polygon is None,
    {
        Self {
            bounding_box: Some(bounding_box),
            circular_area: None,
            polygon: None,
        }
    }

    /// A circular area.
    pub fn circular_area(circular_area: CircularArea) -> (result: Self)
        ensures
            result.bounding_box is None,
            result.circular_area == Some(circular_area),
            result.polygon is None,
    {
        Self {
            bounding_box: None,
            circular_area: Some(circular_area),
            polygon: None,
        }
    }

    /// An area drawn as a polygon.
    pub fn polygon(polygon: Polygon) -> (result: Self)
        ensures
            result.bounding_box is None,
            result.circular_area is None,
            result.polygon == Some(polygon),
    {
        Self {
            bounding_box: None,
            circular_area: None,
            polygon: Some(polygon),
        }
    }

    /// Which alternative of the schema's choice this area carries, or `None` when
    /// none of them is present. The alternatives are preferred in the order
    /// bounding box, circle, polygon, should a value carry more than one.
    pub fn shape(&self) -> (shape: Option<FlexibleShape<'_>>)
        ensures
            match shape {
                Some(FlexibleShape::BoundingBox(area)) => self.bounding_box == Some(*area),
                Some(FlexibleShape::CircularArea(circle)) => {
                    &&& self.bounding_box is None
                    &&& self.circular_area == Some(*circle)
                },
                Some(FlexibleShape::Polygon(polygon)) => {
                    &&& self.bounding_box is None
                    &&& self.circular_area is None
                    &&& self.polygon == Some(*polygon)
                },
                None => {
                    &&& self.bounding_box is None
                    &&& self.circular_area is None
                    &&& self.polygon is None
                },
            },
    {
        if let Some(area) = &self.bounding_box {
            Some(FlexibleShape::BoundingBox(area))
        } else if let Some(circle) = &self.circular_area {
            Some(FlexibleShape::CircularArea(circle))
        } else if let Some(polygon) = &self.polygon {
            Some(FlexibleShape::Polygon(polygon))
        } else {
            None
        }
    }
}

/// The GML 3.2 namespace, `http://www.opengis.net/gml/3.2`.
pub const GML_NAMESPACE: &'static str = "http://www.opengis.net/gml/3.2";

/// The binding of the `gml` prefix a polygon declares.
fn gml_namespace() -> (namespace: String)
    ensures
        namespace@ == GML_NAMESPACE@,
{
    GML_NAMESPACE.to_owned()
}

/// A polygon, the one geometry SIRI borrows from GML rather than modelling itself.
///
/// A polygon is one outer ring and any number of holes. Its elements are in the GML
/// namespace rather than SIRI's, so each polygon carries the namespace binding its
/// own subtree needs — a SIRI document that declares GML on an ancestor is read
/// just as well, and written back with the declaration repeated here, which XML
/// treats as the same document.
#[derive(Debug, Clone, PartialEq)]
pub struct Polygon {
    /// Binding of the `gml` prefix used by this element and everything under it.
    pub gml_namespace: String,
    /// Identifier of this geometry within the document; GML requires one.
    pub id: String,
    /// Name of the spatial reference system the positions are expressed in.
    pub srs_name: Option<String>,
    /// The outer boundary.
    pub exterior: Option<RingProperty>,
    /// The boundaries of the holes cut out of it.
    pub interior: Vec<RingProperty>,
}

impl Polygon {
    /// A polygon with the given outer boundary and no holes.
    pub fn new(id: String, exterior: LinearRing) -> (result: Self)
        ensures
            result.gml_namespace@ == GML_NAMESPACE@,
            result.id == id,
            result.srs_name is None,
            result.exterior == Some(RingProperty { linear_ring: exterior }),
            result.interior@.len() == 0,
    {
        Self {
            gml_namespace: gml_namespace(),
            id,
            srs_name: None,
            exterior: Some(RingProperty { linear_ring: exterior }),
            interior: Vec::new(),
        }
    }
}

/// One boundary of a [`Polygon`].
#[derive(Debug, Clone, PartialEq)]
pub struct RingProperty {
    /// The ring itself.
    pub linear_ring: LinearRing,
}

/// A closed ring of positions.
///
/// The positions are the coordinate list GML calls `posList`: pairs of numbers,
/// separated by spaces, the last pair repeating the first to close the ring.
#[derive(Debug, Clone, PartialEq)]
pub struct LinearRing {
    /// The positions along the ring.
    pub pos_list: PosList,
}

impl LinearRing {
    /// A ring through the given positions.
    pub fn new(positions: String) -> (result: Self)
        ensures
            result.pos_list == (PosList { srs_dimension: None, count: None, value: positions }),
    {
        Self { pos_list: PosList { srs_dimension: None, count: None, value: positions } }
    }
}

/// A list of positions, written as one whitespace-separated run of numbers.
#[derive(Debug, Clone, PartialEq)]
pub struct PosList {
    /// How many numbers make up one position; two unless stated otherwise.
    pub srs_dimension: Option<u64>,
    /// How many positions the list holds.
    pub count: Option<u64>,
    /// The numbers themselves.
    pub value: String,
}

} // verus!
