use vstd::prelude::*;

verus! {

/// Which page a tab is on, and what it is doing.
#[derive(Clone, Copy, Debug, PartialEq, Eq)]
pub enum ProfileTabState {
    Setup,
    SetupCompilingProgram,
    SetupProfilingProgram,
    LoadingProfile,
    Profile,
}

impl Default for ProfileTabState {
    fn default() -> (r: Self)
        ensures
            r == ProfileTabState::Setup,
    {
        ProfileTabState::Setup
    }
}

/// The state of a tab, and the name of the profile that it works on.
#[derive(Debug, PartialEq, Eq)]
pub struct ProfileTabPrivate {
    pub state: ProfileTabState,
    pub profile_name: Option<String>,
}

/// The name of a profile as the contracts see it.
pub open spec fn name_view(name: Option<String>) -> Option<Seq<char>> {
    match name {
        Some(name) => Some(name@),
        None => None,
    }
}

/// A tab of the window.
#[derive(Debug, PartialEq, Eq)]
pub struct ProfileTab {
    pub imp: ProfileTabPrivate,
}

impl ProfileTab {
    /// A tab on the setup page, with no profile yet.
    pub fn new() -> (r: Self)
        ensures
            r.imp.state == ProfileTabState::Setup,
            r.imp.profile_name is None,
    {
        ProfileTab { imp: ProfileTabPrivate { state: ProfileTabState::Setup, profile_name: None } }
    }

    /// Sets the page that the tab is on and the name of its profile.
    pub fn set_data(&mut self, state: ProfileTabState, profile_name: &str)
        ensures
            final(self).imp.state == state,
            name_view(final(self).imp.profile_name) == Some(profile_name@),
    {
        self.set_profile_name(profile_name);
        self.set_state(state);
    }

    /// The name of the profile that the tab works on, once it has one.
    pub fn profile_name(&self) -> (r: Option<String>)
        ensures
            name_view(r) == name_view(self.imp.profile_name),
    {
        match &self.imp.profile_name {
            Some(name) => Some(name.clone()),
            None => None,
        }
    }

    /// Names the profile that the tab works on.
    pub fn set_profile_name(&mut self, profile_name: &str)
        ensures
            final(self).imp.state == old(self).imp.state,
            name_view(final(self).imp.profile_name) == Some(profile_name@),
    {
        self.imp.profile_name = Some(profile_name.to_owned());
    }

    /// The page that the tab is on.
    pub fn state(&self) -> (r: ProfileTabState)
        ensures
            r == self.imp.state,
    {
        self.imp.state
    }

    /// Moves the tab to another page.
    pub fn set_state(&mut self, state: ProfileTabState)
        ensures
            final(self).imp.state == state,
            final(self).imp.profile_name == old(self).imp.profile_name,
    {
        self.imp.state = state;
    }
}

} // verus!
