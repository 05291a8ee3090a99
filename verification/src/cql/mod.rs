//! Settings of the wide-column backend's query language.

pub mod consistency;
