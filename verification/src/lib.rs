//! Verified logic of the text and UI hooks: which text a label shows, how text
//! generation settings are overridden, where UI elements are moved, and what the
//! in-game settings dialog reads and writes.
#![allow(non_snake_case)]

pub mod fnv_collections;
pub mod il2cpp;
pub mod text;
