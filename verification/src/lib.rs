//! Dotfile utilities: a verified batch-link planner over a filesystem
//! snapshot, a zsh completion-script template builder, and the decision
//! logic of a change-notification dispatcher.

pub mod backup;
pub mod batchlink;
pub mod completions;
pub mod fstree;
pub mod path;
