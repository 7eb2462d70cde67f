//! The settings of one run: where the portal lives and how long to poll.

use vstd::prelude::*;
use crate::error::PortalError;

verus! {

/// Polls of the tab's address that a login waits through before it reports
/// that it failed.
pub const LOGIN_RETRIES: u32 = 15;

/// Polls of the profile tab's address before the profile page counts as not
/// reached.
pub const PROFILE_RETRIES: u32 = 10;

/// The settings that a session is opened with.
#[derive(Debug, PartialEq, Eq)]
pub struct PortalConfig {
    /// The portal's entry page.
    pub base_url: String,
    /// The page the portal lands on after a successful login.
    pub dashboard_url: String,
    /// The page that shows the student's profile.
    pub profile_url: String,
    /// Polls that a login waits through.
    pub login_retries: u32,
    /// Polls that the profile tab is given to reach the profile page.
    pub profile_retries: u32,
}

/// A `PortalConfig` with its addresses as sequences of characters.
pub struct PortalConfigView {
    pub base_url: Seq<char>,
    pub dashboard_url: Seq<char>,
    pub profile_url: Seq<char>,
    pub login_retries: u32,
    pub profile_retries: u32,
}

impl View for PortalConfig {
    type V = PortalConfigView;

    open spec fn view(&self) -> PortalConfigView {
        PortalConfigView {
            base_url: self.base_url@,
            dashboard_url: self.dashboard_url@,
            profile_url: self.profile_url@,
            login_retries: self.login_retries,
            profile_retries: self.profile_retries,
        }
    }
}

impl PortalConfigView {
    /// The settings with the three addresses and the usual budgets.
    pub open spec fn with_defaults(
        base_url: Seq<char>,
        dashboard_url: Seq<char>,
        profile_url: Seq<char>,
    ) -> PortalConfigView {
        PortalConfigView {
            base_url,
            dashboard_url,
            profile_url,
            login_retries: LOGIN_RETRIES,
            profile_retries: PROFILE_RETRIES,
        }
    }
}

impl PortalConfig {
    /// Settings with the three addresses and the usual budgets.
    pub fn new(base_url: String, dashboard_url: String, profile_url: String) -> (config: Self)
        ensures
            config@ == PortalConfigView::with_defaults(base_url@, dashboard_url@, profile_url@),
    {
        PortalConfig {
            base_url,
            dashboard_url,
            profile_url,
            login_retries: LOGIN_RETRIES,
            profile_retries: PROFILE_RETRIES,
        }
    }

    /// Settings from what a lookup of each required address gave. All three
    /// are checked before anything else is done: where any has no value the
    /// result is one `MissingConfig` that names every missing one.
    pub fn from_lookup(
        base_url: Option<String>,
        dashboard_url: Option<String>,
        profile_url: Option<String>,
    ) -> (result: Result<Self, PortalError>)
        ensures
            result is Ok <==> base_url is Some && dashboard_url is Some && profile_url is Some,
            result matches Ok(config) ==> config@ == PortalConfigView::with_defaults(
                base_url->0@,
                dashboard_url->0@,
                profile_url->0@,
            ),
            result matches Err(error) ==> error == (PortalError::MissingConfig {
                base_url: base_url is None,
                dashboard_url: dashboard_url is None,
                profile_url: profile_url is None,
            }),
    {
        match (base_url, dashboard_url, profile_url) {
            (Some(base), Some(dashboard), Some(profile)) => Ok(
                PortalConfig::new(base, dashboard, profile),
            ),
            (base, dashboard, profile) => Err(
                PortalError::MissingConfig {
                    base_url: base.is_none(),
                    dashboard_url: dashboard.is_none(),
                    profile_url: profile.is_none(),
                },
            ),
        }
    }

    /// A copy of the settings.
    pub fn duplicate(&self) -> (copy: Self)
        ensures
            copy@ == self@,
    {
        PortalConfig {
            base_url: self.base_url.clone(),
            dashboard_url: self.dashboard_url.clone(),
            profile_url: self.profile_url.clone(),
            login_retries: self.login_retries,
            profile_retries: self.profile_retries,
        }
    }
}

} // verus!
