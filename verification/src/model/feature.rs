//! Features and categories a service, stop or vehicle may be labelled with.

use crate::types::NaturalLanguageString;
use vstd::prelude::*;

verus! {

/// A property of the service running on a line, e.g. `express` or `schoolBus`.
#[derive(Debug, Clone, PartialEq, Eq)]
pub struct ServiceFeature {
    /// The code identifying the feature.
    pub service_feature_code: String,
    /// Names of the feature, one per language.
    pub name: Vec<NaturalLanguageString>,
    /// Icon to present the feature with.
    pub icon: String,
}

/// A commercial category a service belongs to, e.g. a fare product family.
#[derive(Debug, Clone, PartialEq, Eq)]
pub struct ProductCategory {
    /// The code identifying the category.
    pub product_category_code: String,
    /// Names of the category, one per language.
    pub name: Vec<NaturalLanguageString>,
    /// Icon to present the category with.
    pub icon: Option<String>,
}

/// A property of a vehicle, e.g. `lowFloor` or `wheelchairAccessible`.
#[derive(Debug, Clone, PartialEq, Eq)]
pub struct VehicleFeature {
    /// The code identifying the feature.
    pub vehicle_feature_code: String,
    /// Names of the feature, one per language.
    pub name: Vec<NaturalLanguageString>,
    /// Icon to present the feature with.
    pub icon: String,
}

} // verus!
