//! The immutable settings of one ingestion run.

use vstd::prelude::*;
use crate::records::text_view;

verus! {

broadcast use vstd::string::group_string_axioms;

/// The settings of a run, complete.
#[derive(Debug, PartialEq, Eq)]
pub struct Config {
    /// Path of the database file.
    pub db_path: String,
    /// Access token for the host; without one, requests go out anonymously.
    pub github_token: Option<String>,
    /// Address of the first repository.
    pub repo1_path: String,
    /// Address of the second repository.
    pub repo2_path: String,
    /// Directory under which the repositories are cloned.
    pub clone_dir: String,
    /// Fetch even where the database already holds data.
    pub force_fetch: bool,
}

/// The settings as given on the command line or in the environment; `None`
/// where neither names a value.
#[derive(Debug, PartialEq, Eq)]
pub struct RawConfig {
    pub db_path: Option<String>,
    pub github_token: Option<String>,
    pub repo1_path: Option<String>,
    pub repo2_path: Option<String>,
    pub clone_dir: Option<String>,
    pub force_fetch: bool,
}

/// The mathematical value of a [`Config`].
pub struct ConfigView {
    pub db_path: Seq<char>,
    pub github_token: Option<Seq<char>>,
    pub repo1_path: Seq<char>,
    pub repo2_path: Seq<char>,
    pub clone_dir: Seq<char>,
    pub force_fetch: bool,
}

/// The mathematical value of a [`RawConfig`].
pub struct RawConfigView {
    pub db_path: Option<Seq<char>>,
    pub github_token: Option<Seq<char>>,
    pub repo1_path: Option<Seq<char>>,
    pub repo2_path: Option<Seq<char>>,
    pub clone_dir: Option<Seq<char>>,
    pub force_fetch: bool,
}

impl View for Config {
    type V = ConfigView;

    open spec fn view(&self) -> ConfigView {
        ConfigView {
            db_path: self.db_path@,
            github_token: text_view(self.github_token),
            repo1_path: self.repo1_path@,
            repo2_path: self.repo2_path@,
            clone_dir: self.clone_dir@,
            force_fetch: self.force_fetch,
        }
    }
}

impl View for RawConfig {
    type V = RawConfigView;

    open spec fn view(&self) -> RawConfigView {
        RawConfigView {
            db_path: text_view(self.db_path),
            github_token: text_view(self.github_token),
            repo1_path: text_view(self.repo1_path),
            repo2_path: text_view(self.repo2_path),
            clone_dir: text_view(self.clone_dir),
            force_fetch: self.force_fetch,
        }
    }
}

/// The given value, or `fallback` where none was given.
pub open spec fn value_or(given: Option<Seq<char>>, fallback: Seq<char>) -> Seq<char> {
    match given {
        Some(v) => v,
        None => fallback,
    }
}

/// The given settings, with the default for each one that was not given.
/// There is no default for the token: without one, requests go out
/// anonymously.
pub open spec fn with_defaults(raw: RawConfigView) -> ConfigView {
    ConfigView {
        db_path: value_or(raw.db_path, "repo_data.db"@),
        github_token: raw.github_token,
        repo1_path: value_or(raw.repo1_path, "https://github.com/bitcoin/bitcoin.git"@),
        repo2_path: value_or(raw.repo2_path, "https://github.com/bitcoinknots/bitcoin.git"@),
        clone_dir: value_or(raw.clone_dir, "./repo_clones"@),
        force_fetch: raw.force_fetch,
    }
}

fn or_default(given: Option<String>, fallback: &str) -> (r: String)
    ensures
        r@ == value_or(text_view(given), fallback@),
{
    match given {
        Some(v) => v,
        None => String::from_str(fallback),
    }
}

/// Completes the given settings with the defaults.
pub fn parse_config(raw: RawConfig) -> (c: Config)
    ensures
        c@ == with_defaults(raw@),
{
    Config {
        db_path: or_default(raw.db_path, "repo_data.db"),
        github_token: raw.github_token,
        repo1_path: or_default(raw.repo1_path, "https://github.com/bitcoin/bitcoin.git"),
        repo2_path: or_default(raw.repo2_path, "https://github.com/bitcoinknots/bitcoin.git"),
        clone_dir: or_default(raw.clone_dir, "./repo_clones"),
        force_fetch: raw.force_fetch,
    }
}

} // verus!
