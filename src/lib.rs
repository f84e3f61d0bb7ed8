//! Collects current weather and day-ahead electricity prices from two web
//! services and prepares both for storage as JSON files.
//!
//! The library holds every decision of the collector: the request URLs, the
//! order in which an HTTP answer is checked (status first, then shape), the
//! decoding of both answer shapes, the trailing price window and the JSON
//! documents that are written. Sending requests, reading the clock and the
//! environment, and touching the disk are left to the caller.
pub mod collector;
pub mod json;
pub mod prices;
pub mod session;
pub mod weather;
