//! The site's metadata and the one-time load that produces it.

use vstd::prelude::*;

verus! {

/// Metadata of the site. One value is produced per page load and is only read
/// afterwards.
#[derive(Debug)]
pub struct Site {
    /// True once the load has completed. False only in the default value,
    /// which stands for the state before the load.
    pub loaded: bool,
    /// Page title to apply once loaded.
    pub title: String,
    /// Key that selects the page variant to render.
    pub style: String,
}

/// Mathematical model of a [`Site`]: the flag and the two texts as sequences
/// of characters.
pub struct SiteView {
    pub loaded: bool,
    pub title: Seq<char>,
    pub style: Seq<char>,
}

impl View for Site {
    type V = SiteView;

    open spec fn view(&self) -> SiteView {
        SiteView { loaded: self.loaded, title: self.title@, style: self.style@ }
    }
}

/// The title that a completed load carries.
pub open spec fn loaded_title() -> Seq<char> {
    "Welcome from Leptos site data"@
}

/// The style key that a completed load carries: the one key that selects the
/// main page.
pub open spec fn example_style() -> Seq<char> {
    "example"@
}

/// The site before its load: not loaded, with empty title and style.
pub open spec fn unloaded_site() -> SiteView {
    SiteView { loaded: false, title: Seq::empty(), style: Seq::empty() }
}

/// The site that a completed load produces.
pub open spec fn loaded_site() -> SiteView {
    SiteView { loaded: true, title: loaded_title(), style: example_style() }
}

impl Default for Site {
    /// The site before its load.
    fn default() -> (site: Self)
        ensures
            site@ == unloaded_site(),
    {
        Site { loaded: false, title: String::new(), style: String::new() }
    }
}

impl Clone for Site {
    fn clone(&self) -> (copy: Self)
        ensures
            copy@ == self@,
    {
        Site { loaded: self.loaded, title: self.title.clone(), style: self.style.clone() }
    }
}

impl PartialEq for Site {
    fn eq(&self, other: &Self) -> (same: bool) {
        self.loaded == other.loaded && self.title == other.title && self.style == other.style
    }
}

impl Eq for Site {

}

impl vstd::std_specs::cmp::PartialEqSpecImpl for Site {
    open spec fn obeys_eq_spec() -> bool {
        true
    }

    open spec fn eq_spec(&self, other: &Self) -> bool {
        self@ == other@
    }
}

/// Loads the site metadata. The values are fixed: the load always completes,
/// and always with the same title and style.
pub fn load() -> (site: Site)
    ensures
        site@ == loaded_site(),
{
    Site {
        loaded: true,
        title: "Welcome from Leptos site data".to_owned(),
        style: "example".to_owned(),
    }
}

} // verus!
