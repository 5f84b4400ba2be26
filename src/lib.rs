//! A small REST service over a document store holding restaurants.
//!
//! The library holds what the service decides: which filter a request looks
//! up, which record a creation inserts, how a rating is counted, how a search
//! fragment is matched and which reply every outcome of a store call gets.
//! The store calls themselves are made by the program around the library,
//! which hands their outcomes back as plain values.

pub mod envelope;
pub mod handlers;
pub mod laws;
pub mod model;
pub mod text;

pub use envelope::{Reply, Response, Status};
pub use handlers::{
    create_after_insert, create_after_lookup, create_restaurant, describe_filter,
    fetch_all_restaurant, fetch_restaurant, fetch_restaurant_by_string, restaurant_from_name,
    CreateRequest, Filter, FilterField,
};
pub use model::{RatingError, Restaurant, RestaurantRecord, RestaurantView, STAR_BUCKETS};
pub use text::matches_folded;
