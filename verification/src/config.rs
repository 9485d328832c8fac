//! The configuration of the Deva tools.

use vstd::prelude::*;

verus! {

/// The whole configuration.
#[derive(Clone, Debug)]
pub struct DevaConfig {
    pub github: GitHubConfig,
    pub azure_devops: AzureDevOpsConfig,
    pub telegram: TelegramConfig,
    pub database: DatabaseConfig,
    pub auth: AuthConfig,
}

#[derive(Clone, Debug)]
pub struct GitHubConfig {
    pub token: String,
    pub owner: String,
    pub repo: String,
}

#[derive(Clone, Debug)]
pub struct AzureDevOpsConfig {
    pub organization: String,
    pub token: String,
    pub project: String,
}

#[derive(Clone, Debug)]
pub struct TelegramConfig {
    pub bot_token: String,
    pub chat_id: String,
}

#[derive(Clone, Debug)]
pub struct DatabaseConfig {
    pub url: String,
}

#[derive(Clone, Debug)]
pub struct AuthConfig {
    pub jwt_secret: String,
    pub encryption_key: String,
}

impl DevaConfig {
    /// The configuration a fresh installation starts from: the `stringao/deva`
    /// repository, a local SQLite database, and every credential empty.
    pub fn default_config() -> (c: Self)
        ensures
            c.github.token@ == Seq::<char>::empty(),
            c.github.owner@ == "stringao"@,
            c.github.repo@ == "deva"@,
            c.azure_devops.organization@ == Seq::<char>::empty(),
            c.azure_devops.token@ == Seq::<char>::empty(),
            c.azure_devops.project@ == Seq::<char>::empty(),
            c.telegram.bot_token@ == Seq::<char>::empty(),
            c.telegram.chat_id@ == Seq::<char>::empty(),
            c.database.url@ == "sqlite:./deva.db"@,
            c.auth.jwt_secret@ == Seq::<char>::empty(),
            c.auth.encryption_key@ == Seq::<char>::empty(),
    {
        DevaConfig {
            github: GitHubConfig {
                token: String::new(),
                owner: String::from_str("stringao"),
                repo: String::from_str("deva"),
            },
            azure_devops: AzureDevOpsConfig {
                organization: String::new(),
                token: String::new(),
                project: String::new(),
            },
            telegram: TelegramConfig { bot_token: String::new(), chat_id: String::new() },
            database: DatabaseConfig { url: String::from_str("sqlite:./deva.db") },
            auth: AuthConfig { jwt_secret: String::new(), encryption_key: String::new() },
        }
    }
}

} // verus!
