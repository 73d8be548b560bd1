pub mod collector;
pub mod lemmas;
pub mod selector;

pub use collector::{
    collect, process_file, render_section, Candidate, Collected, FileFault, Skipped,
};
pub use selector::{is_target_extension, is_target_file};
