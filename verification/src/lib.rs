//! Remote control of a computer through a Telegram bot: the verified core.
//!
//! The library holds the decisions that the bot makes (who may command it,
//! what a command asks for, what the user is answered), the parsing of its
//! configuration, the system operations behind the commands, the
//! autostart registration dialogue and the command-line modes. Sending and receiving messages, reading
//! the environment and touching files stay with the program around it.
pub mod text;
pub mod config;
pub mod system_manager;
pub mod bot;
pub mod autostart;
pub mod cli;
