//! A chat bot that answers a few fixed commands and drives the start and stop
//! of a remote game-server instance, reporting progress to the chat channel.
pub mod text;
pub mod command;
pub mod orchestration;
pub mod instance;
