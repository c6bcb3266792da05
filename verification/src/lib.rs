//! A stationery catalogue: brands, a two-level category tree, products and
//! their variants; the rules that payloads and forms must meet, and what
//! the API and the pages write and answer.
pub mod brand;
pub mod category;
pub mod product;
pub mod product_variant;
pub mod reply;
pub mod status;
pub mod text;
