use vstd::prelude::*;

verus! {

/// A struct configuring which audits the `Auditor` should run.
///
/// The toggles and allow-lists are orthogonal: an allow-list is only
/// consulted by a check whose toggle is enabled. The allow-list based
/// checks are an extension point; none of the three built-in checks
/// reads them.
#[derive(Debug, Clone, Hash, PartialEq)]
pub struct Config {
    // Toggles
    /// Warns if the organisation does not require 2 factor authentication
    /// for all of its members. (Default: `true`)
    pub enforces_2fa: bool,
    /// Warns if the organisation has admin accounts with push activity.
    /// (Default: `true`)
    pub admins_have_no_commit_activity: bool,
    /// Warns if the organisation has repositories whose master branch is
    /// unprotected. (Default: `true`)
    pub all_repos_master_is_protected: bool,

    // Whitelists
    /// Installed applications allowed in the organisation, by URL slug
    /// (e.g. `foobar`), if provided. (Default: `None`)
    pub installed_app_whitelist: Option<Vec<String>>,
    /// Admins allowed in the organisation, by GitHub username
    /// (e.g. `bors`), if provided. (Default: `None`)
    pub admin_whitelist: Option<Vec<String>>,
    /// Members allowed in the organisation, by GitHub username
    /// (e.g. `bors`), if provided. (Default: `None`)
    pub member_whitelist: Option<Vec<String>>,
}

/// The mathematical value of a [`Config`].
pub struct ConfigView {
    pub enforces_2fa: bool,
    pub admins_have_no_commit_activity: bool,
    pub all_repos_master_is_protected: bool,
    pub installed_app_whitelist: Option<Seq<Seq<char>>>,
    pub admin_whitelist: Option<Seq<Seq<char>>>,
    pub member_whitelist: Option<Seq<Seq<char>>>,
}

impl View for Config {
    type V = ConfigView;

    open spec fn view(&self) -> ConfigView {
        ConfigView {
            enforces_2fa: self.enforces_2fa,
            admins_have_no_commit_activity: self.admins_have_no_commit_activity,
            all_repos_master_is_protected: self.all_repos_master_is_protected,
            installed_app_whitelist: self.installed_app_whitelist.deep_view(),
            admin_whitelist: self.admin_whitelist.deep_view(),
            member_whitelist: self.member_whitelist.deep_view(),
        }
    }
}

impl Default for Config {
    /// Every toggle on, no allow-lists.
    fn default() -> (c: Config)
        ensures
            c@.enforces_2fa,
            c@.admins_have_no_commit_activity,
            c@.all_repos_master_is_protected,
            c@.installed_app_whitelist is None,
            c@.admin_whitelist is None,
            c@.member_whitelist is None,
    {
        Config {
            enforces_2fa: true,
            admins_have_no_commit_activity: true,
            all_repos_master_is_protected: true,
            installed_app_whitelist: None,
            admin_whitelist: None,
            member_whitelist: None,
        }
    }
}

} // verus!
