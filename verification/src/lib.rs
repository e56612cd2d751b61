//! Rules and derived-value engine for a fixed-layout fantasy character
//! sheet.
//!
//! The crate validates a character record against the game's rules, computes
//! the derived numeric values (ability modifiers, proficiency bonus, saving
//! throws, skill bonuses, spell statistics, spell-slot counts), and maps
//! every logical value to the identifier of the output form field that
//! should receive it.  Loading, traversing and saving the target document,
//! and the transport that carries requests, are left to the surrounding
//! application.

pub mod character_model;
pub mod dnd_validator;
pub mod errors;
pub mod field_mapper;
pub mod mcp_server;
pub mod narrative_handler;
pub mod path_validator;
pub mod pdf_filler;
pub mod save_result;
pub mod spell_system;
pub mod text;
