//! Shared building blocks of the Deva tools: configuration, the GitHub,
//! Azure DevOps and Telegram clients (as verified request builders and
//! response rules), the bot command language and the scaffolding generator.

pub mod azure;
pub mod azure_models;
pub mod codec;
pub mod commands;
pub mod config;
pub mod errors;
pub mod generator;
pub mod github;
pub mod github_models;
pub mod http;
pub mod json;
pub mod telegram;
pub mod text;
pub mod webhooks;
