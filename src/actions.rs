use vstd::prelude::*;

verus! {

/// The one entry of the main menu.
pub const FETCH_LOG_GROUPS: &'static str = "Fetch Log Groups";

/// The question the main menu asks.
pub const MAIN_MENU_PROMPT: &'static str = "Select the Action:";

/// The entry offered while log groups are not listed yet.
pub const LOG_GROUP_PLACEHOLDER: &'static str = "Log Group 1";

fn single_option(option: &str) -> (r: Vec<String>)
    ensures
        r.deep_view() == seq![option@],
{
    let r = vec![String::from_str(option)];
    assert(r.deep_view() =~= seq![option@]);
    r
}

/// An action that does nothing but log that it ran.
pub struct DummyAction {}

impl DummyAction {
    pub fn new() -> DummyAction {
        DummyAction {  }
    }

    pub fn name(&self) -> (r: String)
        ensures
            r@ == "Dummy Action"@,
    {
        String::from_str("Dummy Action")
    }
}

/// The menu's first screen.
pub struct MainMenuAction {}

impl MainMenuAction {
    pub fn new() -> Box<MainMenuAction> {
        Box::new(MainMenuAction {  })
    }

    pub fn options(&self) -> (r: Vec<String>)
        ensures
            r.deep_view() == seq![FETCH_LOG_GROUPS@],
    {
        single_option(FETCH_LOG_GROUPS)
    }

    pub fn prompt(&self) -> (r: Option<String>)
        ensures
            r matches Some(p) && p@ == MAIN_MENU_PROMPT@,
    {
        Some(String::from_str(MAIN_MENU_PROMPT))
    }

    /// The action that the chosen option leads to; any option but
    /// `Fetch Log Groups` ends the menu.
    pub fn select(&self, option: &String) -> (r: Option<Box<FetchLogGroupsAction>>)
        ensures
            r is Some <==> option@ == FETCH_LOG_GROUPS@,
    {
        if *option == String::from_str(FETCH_LOG_GROUPS) {
            Some(FetchLogGroupsAction::new())
        } else {
            None
        }
    }
}

/// The screen that lists log groups.
pub struct FetchLogGroupsAction {}

impl FetchLogGroupsAction {
    pub fn new() -> Box<FetchLogGroupsAction> {
        Box::new(FetchLogGroupsAction {  })
    }

    pub fn options(&self) -> (r: Vec<String>)
        ensures
            r.deep_view() == seq![LOG_GROUP_PLACEHOLDER@],
    {
        single_option(LOG_GROUP_PLACEHOLDER)
    }

    pub fn prompt(&self) -> (r: Option<String>)
        ensures
            r is None,
    {
        None
    }
}

/// The screen that tails the logs of a group.
pub struct TailLogsWrapperAction {}

impl TailLogsWrapperAction {
    pub fn new() -> Box<TailLogsWrapperAction> {
        Box::new(TailLogsWrapperAction {  })
    }

    pub fn options(&self) -> (r: Vec<String>)
        ensures
            r.deep_view() == seq![LOG_GROUP_PLACEHOLDER@],
    {
        single_option(LOG_GROUP_PLACEHOLDER)
    }

    pub fn prompt(&self) -> (r: Option<String>)
        ensures
            r is None,
    {
        None
    }
}

} // verus!
