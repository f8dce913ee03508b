//! GUI model logic: commands and key mappings, input events, the component
//! tree, layouts, animation timing, controls and the multi-document panel.
pub mod commands;
pub mod components;
pub mod error;
pub mod input;
pub mod multi_doc_panel;
pub mod controls_extra;
pub mod layout;
pub mod opengl;
pub mod piano_keys;
