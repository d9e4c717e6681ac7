//! First-user data as the users backend exchanges it.
//!
//! The backend speaks in fully-populated records: every field carries a
//! value.  The settings tree speaks in optional fields.  The two conversions
//! here bridge the gap: loading wraps every backend value as present, storing
//! fills absent scalars with the backend's defaults (empty strings, auto-login
//! off).

use vstd::prelude::*;
use vstd::string::*;

use crate::install_settings::{UserSettings, UserSettingsView};

verus! {

/// Ghost form of the first-user record.
#[verifier::ext_equal]
pub struct FirstUserView {
    pub full_name: Seq<char>,
    pub user_name: Seq<char>,
    pub password: Seq<char>,
    pub autologin: bool,
}

/// Represents the settings for the first user.
#[derive(Debug)]
pub struct FirstUser {
    /// First user's full name
    pub full_name: String,
    /// First user's username
    pub user_name: String,
    /// First user's password (in clear text)
    pub password: String,
    /// Whether auto-login should be enabled or not
    pub autologin: bool,
}

impl View for FirstUser {
    type V = FirstUserView;

    open spec fn view(&self) -> FirstUserView {
        FirstUserView {
            full_name: self.full_name@,
            user_name: self.user_name@,
            password: self.password@,
            autologin: self.autologin,
        }
    }
}

impl DeepView for FirstUser {
    type V = FirstUserView;

    open spec fn deep_view(&self) -> FirstUserView {
        self.view()
    }
}

impl Default for FirstUser {
    fn default() -> (r: Self)
        ensures
            r@ == (FirstUserView {
                full_name: Seq::empty(),
                user_name: Seq::empty(),
                password: Seq::empty(),
                autologin: false,
            }),
    {
        FirstUser {
            full_name: String::new(),
            user_name: String::new(),
            password: String::new(),
            autologin: false,
        }
    }
}

/// The first-user record a user section denotes: absent scalars travel as the
/// backend's defaults.
pub open spec fn spec_first_user_of(u: UserSettingsView) -> FirstUserView {
    FirstUserView {
        full_name: match u.full_name {
            Some(s) => s,
            None => Seq::empty(),
        },
        user_name: match u.user_name {
            Some(s) => s,
            None => Seq::empty(),
        },
        password: match u.password {
            Some(s) => s,
            None => Seq::empty(),
        },
        autologin: match u.autologin {
            Some(b) => b,
            None => false,
        },
    }
}

/// The fully-present user section a loaded first-user record denotes.
pub open spec fn spec_user_settings_of(f: FirstUserView) -> UserSettingsView {
    UserSettingsView {
        full_name: Some(f.full_name),
        user_name: Some(f.user_name),
        password: Some(f.password),
        autologin: Some(f.autologin),
    }
}

impl UserSettings {
    /// The record to hand the users backend on a store.
    pub fn to_first_user(&self) -> (r: FirstUser)
        ensures
            r@ == spec_first_user_of(self@),
    {
        FirstUser {
            full_name: match &self.full_name {
                Some(s) => s.clone(),
                None => String::new(),
            },
            user_name: match &self.user_name {
                Some(s) => s.clone(),
                None => String::new(),
            },
            password: match &self.password {
                Some(s) => s.clone(),
                None => String::new(),
            },
            autologin: match self.autologin {
                Some(b) => b,
                None => false,
            },
        }
    }

    /// The user section a load builds from the backend's record: every field
    /// is present.
    pub fn from_first_user(first_user: FirstUser) -> (r: UserSettings)
        ensures
            r@ == spec_user_settings_of(first_user@),
    {
        UserSettings {
            full_name: Some(first_user.full_name),
            user_name: Some(first_user.user_name),
            password: Some(first_user.password),
            autologin: Some(first_user.autologin),
        }
    }
}

} // verus!
