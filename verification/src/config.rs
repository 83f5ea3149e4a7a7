//! The versioned configuration record and its migration step.
//!
//! The record carries a version tag. Loading happens in two steps, so that
//! the surrounding program can keep the on-disk encoding to itself: a parse
//! of the raw text as the current version is offered to
//! [`Config::load_from_current`]; where that step asks for more, a parse as
//! the prior version is offered to [`Config::load_from_prior`], which
//! migrates it, and degrades to the all-defaults current record where even
//! that failed, so that a malformed text never blocks startup.

use vstd::prelude::*;
use vstd::string::StringExecFns;

verus! {

/// The bot-link sub-record of the configuration.
///
/// `chat_id` present means linked; unlinking resets the whole record to its
/// default value.
#[derive(Debug, Clone, PartialEq, Eq)]
pub struct TelegramConfig {
    pub chat_id: Option<i64>,
    pub user_id: Option<i64>,
    pub username: Option<String>,
    pub notifications_enabled: bool,
    pub notify_on_task_done: bool,
    pub include_llm_summary: bool,
    pub stream_enabled: bool,
}

/// Whether `c` is the default bot-link record: unlinked, with every flag
/// off.
pub open spec fn spec_default_telegram_config(c: TelegramConfig) -> bool {
    &&& c.chat_id is None
    &&& c.user_id is None
    &&& c.username is None
    &&& !c.notifications_enabled
    &&& !c.notify_on_task_done
    &&& !c.include_llm_summary
    &&& !c.stream_enabled
}

impl Default for TelegramConfig {
    /// The default bot-link record: unlinked, every flag off.
    fn default() -> (c: Self)
        ensures
            spec_default_telegram_config(c),
    {
        TelegramConfig {
            chat_id: None,
            user_id: None,
            username: None,
            notifications_enabled: false,
            notify_on_task_done: false,
            include_llm_summary: false,
            stream_enabled: false,
        }
    }
}

impl TelegramConfig {
    /// A copy of this record, equal to it field for field.
    pub fn snapshot(&self) -> (c: Self)
        ensures
            c == *self,
    {
        TelegramConfig {
            chat_id: self.chat_id,
            user_id: self.user_id,
            username: match &self.username {
                Some(u) => Some(u.clone()),
                None => None,
            },
            notifications_enabled: self.notifications_enabled,
            notify_on_task_done: self.notify_on_task_done,
            include_llm_summary: self.include_llm_summary,
            stream_enabled: self.stream_enabled,
        }
    }
}

/// The default prefix for branch names.
pub fn default_git_branch_prefix() -> (r: String)
    ensures
        r@ == "vk"@,
{
    String::from_str("vk")
}

/// Whether automatic change descriptions are on by default.
pub fn default_pr_auto_description_enabled() -> (r: bool)
    ensures
        r,
{
    true
}

/// The current configuration record. Only the fields this core reads or
/// migrates are carried; the version tag names the current schema.
#[derive(Debug, Clone, PartialEq, Eq)]
pub struct Config {
    pub config_version: String,
    pub disclaimer_acknowledged: bool,
    pub onboarding_acknowledged: bool,
    pub analytics_enabled: bool,
    pub workspace_dir: Option<String>,
    pub last_app_version: Option<String>,
    pub show_release_notes: bool,
    pub git_branch_prefix: String,
    pub pr_auto_description_enabled: bool,
    pub pr_auto_description_prompt: Option<String>,
    pub beta_workspaces: bool,
    pub beta_workspaces_invitation_sent: bool,
    pub commit_reminder: bool,
    pub telegram: TelegramConfig,
}

/// The prior version of the record: the same fields, with no bot-link
/// sub-record yet.
#[derive(Debug, Clone, PartialEq, Eq)]
pub struct ConfigV8 {
    pub config_version: String,
    pub disclaimer_acknowledged: bool,
    pub onboarding_acknowledged: bool,
    pub analytics_enabled: bool,
    pub workspace_dir: Option<String>,
    pub last_app_version: Option<String>,
    pub show_release_notes: bool,
    pub git_branch_prefix: String,
    pub pr_auto_description_enabled: bool,
    pub pr_auto_description_prompt: Option<String>,
    pub beta_workspaces: bool,
    pub beta_workspaces_invitation_sent: bool,
    pub commit_reminder: bool,
}

/// Whether `c` is the all-defaults current record.
pub open spec fn spec_default_config(c: Config) -> bool {
    &&& c.config_version@ == "v9"@
    &&& !c.disclaimer_acknowledged
    &&& !c.onboarding_acknowledged
    &&& c.analytics_enabled
    &&& c.workspace_dir is None
    &&& c.last_app_version is None
    &&& !c.show_release_notes
    &&& c.git_branch_prefix@ == "vk"@
    &&& c.pr_auto_description_enabled
    &&& c.pr_auto_description_prompt is None
    &&& !c.beta_workspaces
    &&& !c.beta_workspaces_invitation_sent
    &&& !c.commit_reminder
    &&& spec_default_telegram_config(c.telegram)
}

/// Whether `c` is `old` brought to the current version: every carried field
/// kept, the tag moved to the current one, and the newly introduced
/// bot-link sub-record at its default.
pub open spec fn spec_migrated(old: ConfigV8, c: Config) -> bool {
    &&& c.config_version@ == "v9"@
    &&& c.disclaimer_acknowledged == old.disclaimer_acknowledged
    &&& c.onboarding_acknowledged == old.onboarding_acknowledged
    &&& c.analytics_enabled == old.analytics_enabled
    &&& c.workspace_dir == old.workspace_dir
    &&& c.last_app_version == old.last_app_version
    &&& c.show_release_notes == old.show_release_notes
    &&& c.git_branch_prefix == old.git_branch_prefix
    &&& c.pr_auto_description_enabled == old.pr_auto_description_enabled
    &&& c.pr_auto_description_prompt == old.pr_auto_description_prompt
    &&& c.beta_workspaces == old.beta_workspaces
    &&& c.beta_workspaces_invitation_sent == old.beta_workspaces_invitation_sent
    &&& c.commit_reminder == old.commit_reminder
    &&& spec_default_telegram_config(c.telegram)
}

impl Default for Config {
    /// The all-defaults current record.
    fn default() -> (c: Self)
        ensures
            spec_default_config(c),
    {
        Config {
            config_version: String::from_str("v9"),
            disclaimer_acknowledged: false,
            onboarding_acknowledged: false,
            analytics_enabled: true,
            workspace_dir: None,
            last_app_version: None,
            show_release_notes: false,
            git_branch_prefix: default_git_branch_prefix(),
            pr_auto_description_enabled: true,
            pr_auto_description_prompt: None,
            beta_workspaces: false,
            beta_workspaces_invitation_sent: false,
            commit_reminder: false,
            telegram: TelegramConfig::default(),
        }
    }
}

/// The answer of the first loading step: either the record is already
/// current and in hand, or the prior version must be tried.
#[derive(Debug)]
pub enum LoadStep {
    Done(Config),
    NeedPrior,
}

impl Config {
    /// Migrate a prior-version record to the current version: every carried
    /// field is kept, and the bot-link sub-record starts at its default.
    pub fn from_previous_version(old: ConfigV8) -> (c: Config)
        ensures
            spec_migrated(old, c),
    {
        Config {
            config_version: String::from_str("v9"),
            disclaimer_acknowledged: old.disclaimer_acknowledged,
            onboarding_acknowledged: old.onboarding_acknowledged,
            analytics_enabled: old.analytics_enabled,
            workspace_dir: old.workspace_dir,
            last_app_version: old.last_app_version,
            show_release_notes: old.show_release_notes,
            git_branch_prefix: old.git_branch_prefix,
            pr_auto_description_enabled: old.pr_auto_description_enabled,
            pr_auto_description_prompt: old.pr_auto_description_prompt,
            beta_workspaces: old.beta_workspaces,
            beta_workspaces_invitation_sent: old.beta_workspaces_invitation_sent,
            commit_reminder: old.commit_reminder,
            telegram: TelegramConfig::default(),
        }
    }

    /// The first loading step, over the outcome of reading the raw text as a
    /// current-version record. A record that parsed and carries the current
    /// tag passes through exactly as it is, no chain traversal; anything
    /// else sends the loader to the prior version.
    pub fn load_from_current(parsed: Option<Config>) -> (r: LoadStep)
        ensures
            match parsed {
                Some(c) => if c.config_version@ == "v9"@ {
                    r == LoadStep::Done(c)
                } else {
                    r is NeedPrior
                },
                None => r is NeedPrior,
            },
    {
        match parsed {
            Some(c) => {
                if c.config_version == String::from_str("v9") {
                    LoadStep::Done(c)
                } else {
                    LoadStep::NeedPrior
                }
            },
            None => LoadStep::NeedPrior,
        }
    }

    /// The second loading step, over the outcome of reading the raw text as
    /// a prior-version record: a record that parsed is migrated; one that
    /// did not leaves the loader with the all-defaults current record, so a
    /// malformed text never raises an error to the caller.
    pub fn load_from_prior(parsed: Option<ConfigV8>) -> (r: Config)
        ensures
            parsed matches Some(old) ==> spec_migrated(old, r),
            parsed is None ==> spec_default_config(r),
    {
        match parsed {
            Some(old) => Config::from_previous_version(old),
            None => Config::default(),
        }
    }
}

} // verus!
