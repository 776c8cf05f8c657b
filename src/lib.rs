//! A caching reverse proxy in front of an ad-exchange Market: the campaign
//! snapshot and its refresh rules, the refresh schedule, and the request
//! routing decisions, each stated and proved with Verus.
pub mod campaign;
pub mod config;
pub mod dispatch;
pub mod error;
pub mod scheduler;
