//! Leaderboard fetcher: the verified core of a small client that queries a
//! leaderboard endpoint once per `days` value, decodes each JSON response
//! body against a fixed schema, and joins the four outcomes fail-fast in
//! submission order.

pub mod codec;
pub mod data;
pub mod json;
pub mod orchestrate;
pub mod render;
pub mod url;
pub mod wire;
