//! Page elements the workflows address, and the hard errors they end in.

use vstd::prelude::*;
use vstd::string::StringExecFns;

verus! {

/// A page element that a workflow looks up.
#[derive(Debug, Clone, Copy, PartialEq, Eq)]
pub enum Target {
    /// The text input for the student login on the login form.
    UsernameInput,
    /// The password input on the login form.
    PasswordInput,
    /// The control that submits the login form.
    SubmitButton,
    /// The first image of the profile page.
    ProfileImage,
    /// The panel body that holds the address on the profile page.
    AddressPanel,
    /// A row of the profile page's table.
    TableRow,
    /// A cell of a table row.
    TableCell,
}

/// A text that the login workflow types into the form.
#[derive(Debug, Clone, Copy, PartialEq, Eq)]
pub enum Credential {
    StudentLogin,
    Password,
}

/// A hard error: the workflow that meets one ends at once and reports it.
#[derive(Debug, Clone, Copy, PartialEq, Eq)]
pub enum PortalError {
    /// One or more of the required settings has no value; each flag says
    /// whether that setting is the missing one.
    MissingConfig { base_url: bool, dashboard_url: bool, profile_url: bool },
    /// The browser did not start, or it refused to open a tab.
    Launch,
    /// A navigation was refused, or the page load did not settle.
    Navigation,
    /// A required element was not located within the driver's own timeout.
    ElementNotFound(Target),
    /// The element was located but the click on it failed.
    ClickFailed(Target),
    /// Typing the text failed.
    TypeFailed(Credential),
    /// The element was located but reading from it failed.
    ReadFailed(Target),
    /// The profile tab did not reach the profile page within its budget.
    NavigationTimeout,
    /// The profile page was read and no table row gave a field.
    EmptyResult,
    /// The profile holds fewer fields than a report shows.
    MissingFields,
    /// The driver answered with a reply that the pending command cannot have.
    UnexpectedReply,
}

impl Target {
    /// The CSS selector by which the element is looked up.
    pub open spec fn spec_selector(self) -> Seq<char> {
        match self {
            Target::UsernameInput => "input[name='txtstudent_userid']"@,
            Target::PasswordInput => "input[name='txtstdpassword']"@,
            Target::SubmitButton => "button"@,
            Target::ProfileImage => "img"@,
            Target::AddressPanel => "div.panel-body"@,
            Target::TableRow => "tr"@,
            Target::TableCell => "td"@,
        }
    }

    /// How the element is called in an error message.
    pub open spec fn spec_label(self) -> Seq<char> {
        match self {
            Target::UsernameInput => "student login input"@,
            Target::PasswordInput => "password input"@,
            Target::SubmitButton => "submit button"@,
            Target::ProfileImage => "profile image"@,
            Target::AddressPanel => "address panel"@,
            Target::TableRow => "table row"@,
            Target::TableCell => "table cell"@,
        }
    }

    pub fn selector(&self) -> (s: String)
        ensures
            s@ == self.spec_selector(),
    {
        match self {
            Target::UsernameInput => "input[name='txtstudent_userid']".to_owned(),
            Target::PasswordInput => "input[name='txtstdpassword']".to_owned(),
            Target::SubmitButton => "button".to_owned(),
            Target::ProfileImage => "img".to_owned(),
            Target::AddressPanel => "div.panel-body".to_owned(),
            Target::TableRow => "tr".to_owned(),
            Target::TableCell => "td".to_owned(),
        }
    }

    pub fn label(&self) -> (s: String)
        ensures
            s@ == self.spec_label(),
    {
        match self {
            Target::UsernameInput => "student login input".to_owned(),
            Target::PasswordInput => "password input".to_owned(),
            Target::SubmitButton => "submit button".to_owned(),
            Target::ProfileImage => "profile image".to_owned(),
            Target::AddressPanel => "address panel".to_owned(),
            Target::TableRow => "table row".to_owned(),
            Target::TableCell => "table cell".to_owned(),
        }
    }
}

impl Credential {
    /// How the text is called in an error message.
    pub open spec fn spec_label(self) -> Seq<char> {
        match self {
            Credential::StudentLogin => "student login"@,
            Credential::Password => "password"@,
        }
    }

    pub fn label(&self) -> (s: String)
        ensures
            s@ == self.spec_label(),
    {
        match self {
            Credential::StudentLogin => "student login".to_owned(),
            Credential::Password => "password".to_owned(),
        }
    }
}

impl PortalError {
    /// The text that describes the failed operation.
    pub open spec fn spec_message(self) -> Seq<char> {
        match self {
            PortalError::MissingConfig { .. } => "Required configuration is missing"@,
            PortalError::Launch => "Failed to launch the browser"@,
            PortalError::Navigation => "Failed to load the page"@,
            PortalError::ElementNotFound(target) => "Failed to find "@ + target.spec_label(),
            PortalError::ClickFailed(target) => "Failed to click on "@ + target.spec_label(),
            PortalError::TypeFailed(text) => "Failed to type "@ + text.spec_label(),
            PortalError::ReadFailed(target) => "Failed to read "@ + target.spec_label(),
            PortalError::NavigationTimeout => "Failed to navigate to profile page"@,
            PortalError::EmptyResult => "Student info not found."@,
            PortalError::MissingFields => "Student info is incomplete."@,
            PortalError::UnexpectedReply => "Unexpected reply from the browser driver"@,
        }
    }

    pub fn message(&self) -> (s: String)
        ensures
            s@ == self.spec_message(),
    {
        match self {
            PortalError::MissingConfig { .. } => "Required configuration is missing".to_owned(),
            PortalError::Launch => "Failed to launch the browser".to_owned(),
            PortalError::Navigation => "Failed to load the page".to_owned(),
            PortalError::ElementNotFound(target) => {
                "Failed to find ".to_owned().concat(target.label().as_str())
            },
            PortalError::ClickFailed(target) => {
                "Failed to click on ".to_owned().concat(target.label().as_str())
            },
            PortalError::TypeFailed(text) => {
                "Failed to type ".to_owned().concat(text.label().as_str())
            },
            PortalError::ReadFailed(target) => {
                "Failed to read ".to_owned().concat(target.label().as_str())
            },
            PortalError::NavigationTimeout => "Failed to navigate to profile page".to_owned(),
            PortalError::EmptyResult => "Student info not found.".to_owned(),
            PortalError::MissingFields => "Student info is incomplete.".to_owned(),
            PortalError::UnexpectedReply => "Unexpected reply from the browser driver".to_owned(),
        }
    }
}

} // verus!
