//! Regional fuel-price predictions: extraction of a per-city price table from
//! the markup of a prediction page, with verified contracts.

pub mod cells;
pub mod extract;
pub mod laws;
pub mod markup;
pub mod price;
pub mod table;
