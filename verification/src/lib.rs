//! Summarizes submodule pointer moves in a Git superproject: for each
//! submodule whose recorded and working-tree commit pointers differ, a
//! structured update record (title fragment plus optional per-commit message
//! body) is built, and a batch of such records is rendered into one report.

pub mod git;
pub mod render;
pub mod submodule_commit;
pub mod submodule_update;
pub mod text;
