//! Data model and traversal logic for sequential optical systems.
//!
//! An optical system is an ordered chain of surfaces (object plane, refracting
//! spheres, coordinate breaks, image plane) together with a material table.
//! Every surface stores its parameters in a fixed array of 32-bit slots whose
//! meaning is fixed by the surface kind and a named slot index; the flat,
//! padding-free layout is what lets the same record feed a compute shader.
//!
//! This crate verifies the discrete part of that model: the slot storage and
//! its typed encodings, the per-kind field schemas, the rotation-order table
//! of coordinate breaks, and the system traversal that decides which slots and
//! which material rows enter the thickness and paraxial-power queries.
//! Numeric slots hold IEEE-754 single-precision bit patterns as plain `u32`
//! words; evaluating them is floating-point arithmetic and is left to the
//! (unverified) front end, which reads the traversal plans produced here.

pub mod field;
pub mod formatting;
pub mod log;
pub mod material;
pub mod surface;
pub mod surface_data;
pub mod surface_kind;
pub mod system;
pub mod tabs;
pub mod widgets;
