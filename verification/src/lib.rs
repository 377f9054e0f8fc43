//! A data-access layer for a collection of game items in a document
//! store, exposing insert and find-by-id. The store interaction itself is
//! a single driver call per operation, performed by the surrounding
//! program; this library holds everything that can be decided from plain
//! values — the document an insert submits, the decoding of a stored
//! document, and the outcome and log line for every reply the store can
//! give — each with a verified contract.

pub mod document;
pub mod entities;
pub mod object_id;
pub mod repository;
