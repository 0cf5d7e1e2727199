//! A small web-service core: a closed resource-type tag parsed from URL path
//! segments, three greeting routes over it, and a machine-readable description
//! of those routes.
//!
//! Everything here is plain data and string logic; the HTTP server, the typed
//! path extraction and the schema serialization live in the surrounding
//! application.

pub mod apidoc;
pub mod resource;
pub mod routes;
