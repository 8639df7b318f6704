//! Handling categories for parcels, decided from whether a parcel is bulky
//! and whether it is heavy.

pub mod category;

pub use category::{SortCategory, DIMENSION_THRESHOLD_CM, MASS_THRESHOLD_KG, VOLUME_THRESHOLD_CM3};
