use vstd::prelude::*;

verus! {

/// Which page a view shows, and what it is doing.
#[derive(Clone, Copy, Debug, PartialEq, Eq)]
pub enum ProfilePageViewState {
    Setup,
    SetupCompilingProgram,
    SetupProfilingProgram,
    LoadingProfile,
    Profile,
}

impl Default for ProfilePageViewState {
    fn default() -> (r: Self)
        ensures
            r == ProfilePageViewState::Setup,
    {
        ProfilePageViewState::Setup
    }
}

/// The state of a page view, and the name of the profile that it works on.
#[derive(Debug, PartialEq, Eq)]
pub struct ProfilePageViewPrivate {
    pub state: ProfilePageViewState,
    pub profile_name: Option<String>,
}

/// The content of one tab: the setup page, and then the profile.
#[derive(Debug, PartialEq, Eq)]
pub struct ProfilePageView {
    pub imp: ProfilePageViewPrivate,
}

/// What a tab shows of its page view: a title, and where they change,
/// whether it is busy and whether it asks for attention.
#[derive(Debug, PartialEq, Eq)]
pub struct TabProps {
    pub title: String,
    pub loading: Option<bool>,
    pub needs_attention: Option<bool>,
}

/// The title of the tab of a page view.
pub open spec fn tab_title(state: ProfilePageViewState, profile_name: Option<Seq<char>>) -> Seq<
    char,
> {
    match (state, profile_name) {
        (ProfilePageViewState::Setup, None) => "Profile Setup"@,
        (ProfilePageViewState::Setup, Some(name)) => "Profile Setup - "@ + name,
        (ProfilePageViewState::SetupCompilingProgram, Some(name)) => "Compiling - "@ + name,
        (ProfilePageViewState::SetupProfilingProgram, Some(name)) => "Profiling - "@ + name,
        (_, Some(name)) => name,
        (_, None) => Seq::empty(),
    }
}

impl ProfilePageView {
    /// A view on the setup page, with no profile yet.
    pub fn new() -> (r: Self)
        ensures
            r.imp.state == ProfilePageViewState::Setup,
            r.imp.profile_name is None,
    {
        ProfilePageView {
            imp: ProfilePageViewPrivate { state: ProfilePageViewState::Setup, profile_name: None },
        }
    }

    /// The page that the view shows.
    pub fn state(&self) -> (r: ProfilePageViewState)
        ensures
            r == self.imp.state,
    {
        self.imp.state
    }

    /// Sets the page that the view shows and the name of its profile.
    pub fn set_data(&mut self, state: ProfilePageViewState, profile_name: &str)
        ensures
            final(self).imp.state == state,
            final(self).imp.profile_name matches Some(name) && name@ == profile_name@,
    {
        self.imp.state = state;
        self.imp.profile_name = Some(profile_name.to_owned());
    }

    /// What the tab of this view shows. Only the setup page can be shown
    /// before a profile has a name.
    pub fn tab_props(&self, tab_selected: bool) -> (r: TabProps)
        requires
            self.imp.state != ProfilePageViewState::Setup ==> self.imp.profile_name is Some,
        ensures
            r.title@ == tab_title(
                self.imp.state,
                match self.imp.profile_name {
                    Some(name) => Some(name@),
                    None => None,
                },
            ),
            r.loading == if self.imp.state == ProfilePageViewState::Setup {
                None::<bool>
            } else {
                Some(true)
            },
            r.needs_attention == if self.imp.state == ProfilePageViewState::Profile {
                Some(!tab_selected)
            } else {
                None::<bool>
            },
    {
        match (&self.imp.state, &self.imp.profile_name) {
            (ProfilePageViewState::Setup, None) => TabProps {
                title: String::from_str("Profile Setup"),
                loading: None,
                needs_attention: None,
            },
            (ProfilePageViewState::Setup, Some(name)) => TabProps {
                title: String::from_str("Profile Setup - ").concat(name.as_str()),
                loading: None,
                needs_attention: None,
            },
            (ProfilePageViewState::SetupCompilingProgram, Some(name)) => TabProps {
                title: String::from_str("Compiling - ").concat(name.as_str()),
                loading: Some(true),
                needs_attention: None,
            },
            (ProfilePageViewState::SetupProfilingProgram, Some(name)) => TabProps {
                title: String::from_str("Profiling - ").concat(name.as_str()),
                loading: Some(true),
                needs_attention: None,
            },
            (ProfilePageViewState::LoadingProfile, Some(name)) => TabProps {
                title: name.clone(),
                loading: Some(true),
                needs_attention: None,
            },
            (ProfilePageViewState::Profile, Some(name)) => TabProps {
                title: name.clone(),
                loading: Some(true),
                needs_attention: Some(!tab_selected),
            },
            (_, None) => TabProps {
                title: String::new(),
                loading: Some(true),
                needs_attention: None,
            },
        }
    }
}

} // verus!
