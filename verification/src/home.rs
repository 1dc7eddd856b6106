//! The home view: which page variant the site's style selects.

use vstd::prelude::*;

use crate::site::example_style;
use crate::text::same_text;

verus! {

/// What the home view shows.
#[derive(Debug)]
pub enum HomeView {
    /// The main page.
    MainPage,
    /// This text and nothing else.
    Text(String),
}

/// Model of a [`HomeView`].
pub enum HomeViewModel {
    MainPage,
    Text(Seq<char>),
}

impl View for HomeView {
    type V = HomeViewModel;

    open spec fn view(&self) -> HomeViewModel {
        match self {
            HomeView::MainPage => HomeViewModel::MainPage,
            HomeView::Text(text) => HomeViewModel::Text(text@),
        }
    }
}

impl PartialEq for HomeView {
    fn eq(&self, other: &Self) -> (same: bool) {
        match (self, other) {
            (HomeView::MainPage, HomeView::MainPage) => true,
            (HomeView::Text(mine), HomeView::Text(theirs)) => *mine == *theirs,
            _ => false,
        }
    }
}

impl Eq for HomeView {

}

impl vstd::std_specs::cmp::PartialEqSpecImpl for HomeView {
    open spec fn obeys_eq_spec() -> bool {
        true
    }

    open spec fn eq_spec(&self, other: &Self) -> bool {
        self@ == other@
    }
}

/// The text shown for a style that selects no page.
pub open spec fn invalid_style_text() -> Seq<char> {
    "Invalid style"@
}

/// The one recognised style selects the main page; every other style gives
/// the fallback text.
pub open spec fn home_for_style(style: Seq<char>) -> HomeViewModel {
    if style == example_style() {
        HomeViewModel::MainPage
    } else {
        HomeViewModel::Text(invalid_style_text())
    }
}

/// Selects what the home view shows for the site's style.
pub fn home_view(style: &str) -> (view: HomeView)
    ensures
        view@ == home_for_style(style@),
{
    if same_text(style, "example") {
        HomeView::MainPage
    } else {
        HomeView::Text("Invalid style".to_owned())
    }
}

} // verus!
