//! The decisions of a modpack updater.
//!
//! The updater keeps a folder in step with a branch of a Git repository and
//! shows what it does in a terminal. Everything that reaches outside the
//! process (the terminal, the disk, the network, the sound) is left to a front
//! end. This library holds what the updater decides: how the application
//! moves from state to state on a key press or on a message from a background
//! job ([`app`], [`event`]), how a synchronisation proceeds step by step and
//! what it reports ([`sync`]), how large-file pointers are found and read
//! ([`lfs`]), which branches a remote offers ([`git`]), what is missing and
//! how to install it ([`dependency_check`]), whether an update is due
//! ([`update`]), what the history file holds ([`history`]), and what the
//! jukebox plays ([`music`]).

pub mod app;
pub mod dependency_check;
pub mod event;
pub mod git;
pub mod history;
pub mod lfs;
pub mod music;
pub mod paths;
pub mod sync;
pub mod text;
pub mod update;
