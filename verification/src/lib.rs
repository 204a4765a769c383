//! Verified core of an editor plugin that installs and launches the Deno
//! language server: platform resolution, download descriptors, archive
//! extraction planning with a path-traversal guard, and the launch decision
//! taken from editor-supplied configuration.
pub mod archive;
pub mod descriptor;
pub mod extract;
pub mod install;
pub mod launch;
pub mod paths;
pub mod platform;
pub mod text;
pub mod uri;
