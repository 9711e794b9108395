//! The request boundary: what a submit request must hold to be judged, and
//! what is sent back.

pub mod service;
