//! Editing, selection and policy logic of the Uzumaki UI runtime, verified with Verus.

pub mod selection;
pub mod textkit;
pub mod text_model;
pub mod input;
pub mod cursor;
pub mod style;
pub mod prop_keys;
pub mod plugin;
pub mod element;
pub mod text_runs;
pub mod media;
pub mod image_sniff;
pub mod events;
pub mod interactivity;
pub mod pointer;
pub mod element_props;
pub mod modules;
pub mod dom_tree;
