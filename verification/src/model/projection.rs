//! Projections: how a transport element is drawn onto a map.
//!
//! A projection ties a network element — a link between two stops, a point, a fare
//! zone — either to features of the producer's geographic information system or to
//! an explicit list of coordinates. Consumers that render maps use whichever form
//! they can resolve.
use crate::types::Binary64;
use vstd::prelude::*;

verus! {

/// A path between two points.
#[derive(Debug, Clone, Default, PartialEq)]
pub struct LinkProjection {
    /// Features of the geographic information system the path runs along.
    pub features: Option<GisFeatures>,
    /// The path as an explicit sequence of points.
    pub line: Option<ProjectionLine>,
}

/// An area, given as a closed boundary.
#[derive(Debug, Clone, Default, PartialEq)]
pub struct ZoneProjection {
    /// Features of the geographic information system the area covers.
    pub features: Option<GisFeatures>,
    /// The boundary; the schema requires at least three points per ring.
    pub boundary: Vec<ProjectionBoundary>,
}

/// One closed ring of a [`ZoneProjection`].
#[derive(Debug, Clone, Default, PartialEq)]
pub struct ProjectionBoundary {
    /// The points of the ring, in order.
    pub point_projection: Vec<PointProjection>,
}

/// The features of a geographic information system an element projects onto.
#[derive(Debug, Clone, PartialEq, Eq)]
pub struct GisFeatures {
    /// The features, at least one.
    pub gis_feature_ref: Vec<GisFeatureRef>,
}

/// A reference to one feature of a geographic information system.
#[derive(Debug, Clone, PartialEq, Eq)]
pub struct GisFeatureRef {
    /// The system's own identifier for the feature.
    pub feature_id_ref: String,
    /// What kind of feature it is, in the system's own vocabulary.
    pub feature_type: Option<String>,
}

/// A projected path, given as an ordered sequence of points.
#[derive(Debug, Clone, Default, PartialEq)]
pub struct ProjectionLine {
    /// The points; the schema requires at least two, a start and an end.
    pub point_projection: Vec<PointProjection>,
}

/// One point of a projection.
///
/// As with a [`Location`](crate::model::Location), the position is given either as
/// WGS 84 degrees or as a coordinate list in the projection named by `srs_name`.
#[derive(Debug, Clone, Default, PartialEq)]
pub struct PointProjection {
    /// Identifier of this point within the document.
    pub id: Option<String>,
    /// Name of the spatial reference system `coordinates` is expressed in.
    pub srs_name: Option<String>,
    /// Features of the geographic information system this point projects onto.
    pub features: Option<GisFeatures>,
    /// Degrees east of the prime meridian.
    pub longitude: Option<Binary64>,
    /// Degrees north of the equator.
    pub latitude: Option<Binary64>,
    /// Metres above sea level.
    pub altitude: Option<Binary64>,
    /// The position in the projection named by `srs_name`, as a coordinate list.
    pub coordinates: Option<String>,
    /// Precision of the position in metres.
    pub precision: Option<u64>,
}

impl PointProjection {
    /// A point at the given WGS 84 position.
    pub fn wgs84(longitude: Binary64, latitude: Binary64) -> (result: Self)
        ensures
            result.id is None,
            result.srs_name is None,
            result.features is None,
            result.longitude == Some(longitude),
            result.latitude == Some(latitude),
            result.altitude is None,
            result.coordinates is None,
            result.precision is None,
    {
        Self {
            id: None,
            srs_name: None,
            features: None,
            longitude: Some(longitude),
            latitude: Some(latitude),
            altitude: None,
            coordinates: None,
            precision: None,
        }
    }
}

} // verus!
