//! Event routing and panel coordination for a terminal code-editing shell:
//! focus and visibility state, the intents that panels emit, the file-tree
//! model behind the explorer, the editor tab registry, the menu bar state
//! machine and the coordinator that ties them together.
//!
//! The library does no I/O. The program around it reads the filesystem into
//! `tree::FsEntry` values, turns terminal input into `event::Event` values,
//! and carries out the `app::Effect` that each input step asks for (reading
//! or writing a file, handing a key to the editing engine), reporting the
//! outcome back to the `app::App`.

pub mod component;
pub mod error;
pub mod event;
pub mod menu_bar;
pub mod text;
pub mod editor;
pub mod editor_tab;
pub mod path;
pub mod tree;
pub mod explorer;
pub mod logger;
pub mod about;
pub mod cli;
pub mod app;
