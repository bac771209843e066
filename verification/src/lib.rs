//! Decoder for Microformats2 "h-entry" JSON objects.
//!
//! Microformats2 JSON conventionally wraps scalar property values in
//! single-element arrays. This library normalizes that quirk: a property
//! documented as a string may arrive either as a bare JSON string or as an
//! array whose first element is taken. The decoders turn a JSON document
//! into plain typed records (`MFEntry`, `Entry`, `EntryProps`) or report a
//! `DecodeError` describing the first field that failed.

pub mod error;
pub mod json;
pub mod mf;
