//! Template placeholder handling for project generation, and the lattice bus
//! bindings of the component runtime.

pub mod bus;
pub mod dump;
pub mod params;
pub mod pattern;
pub mod project_variables;
pub mod render;
pub mod str_map;
pub mod text;
pub mod toml_value;
