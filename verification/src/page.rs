//! What the routed area of the page shows: the router's fallback, nothing
//! while the site is not there, or the title and the home view.

use vstd::prelude::*;

use crate::gate::{admission, decide_admission, Admission, AdmissionView};
use crate::home::{home_for_style, home_view, invalid_style_text, HomeView, HomeViewModel};
use crate::route::{routed_for, Routed};
use crate::site::{example_style, loaded_site, loaded_title, Site, SiteView};

verus! {

/// What the routed area shows.
#[derive(Debug)]
pub enum Page {
    /// This text and nothing else: the path matched no route.
    Fallback(String),
    /// Nothing: the site is not there yet.
    Suspended,
    /// Nothing can be shown: the site came without its `loaded` flag, and the
    /// caller must abort.
    Fatal,
    /// The page title is `title`, and the routed area holds the home view.
    Gated { title: String, home: HomeView },
}

/// Model of a [`Page`].
pub enum PageModel {
    Fallback(Seq<char>),
    Suspended,
    Fatal,
    Gated { title: Seq<char>, home: HomeViewModel },
}

impl View for Page {
    type V = PageModel;

    open spec fn view(&self) -> PageModel {
        match self {
            Page::Fallback(text) => PageModel::Fallback(text@),
            Page::Suspended => PageModel::Suspended,
            Page::Fatal => PageModel::Fatal,
            Page::Gated { title, home } => PageModel::Gated { title: title@, home: home@ },
        }
    }
}

impl PartialEq for Page {
    fn eq(&self, other: &Self) -> (same: bool) {
        match (self, other) {
            (Page::Fallback(mine), Page::Fallback(theirs)) => *mine == *theirs,
            (Page::Suspended, Page::Suspended) => true,
            (Page::Fatal, Page::Fatal) => true,
            (
                Page::Gated { title: my_title, home: my_home },
                Page::Gated { title: their_title, home: their_home },
            ) => *my_title == *their_title && *my_home == *their_home,
            _ => false,
        }
    }
}

impl Eq for Page {

}

impl vstd::std_specs::cmp::PartialEqSpecImpl for Page {
    open spec fn obeys_eq_spec() -> bool {
        true
    }

    open spec fn eq_spec(&self, other: &Self) -> bool {
        self@ == other@
    }
}

/// The text shown for a path that matches no route.
pub open spec fn not_found_text() -> Seq<char> {
    "Page not found."@
}

/// The page for the place that the path leads to and for the site that was
/// delivered, `None` standing for a site that is not there yet. The site
/// counts only on the way to the home view, and its style only once it is
/// loaded.
pub open spec fn page_for(routed: Routed, site: Option<SiteView>) -> PageModel {
    match routed {
        Routed::NotFound => PageModel::Fallback(not_found_text()),
        Routed::Home => match site {
            None => PageModel::Suspended,
            Some(site) => match admission(site) {
                AdmissionView::Fatal => PageModel::Fatal,
                AdmissionView::Proceed { title } => PageModel::Gated {
                    title,
                    home: home_for_style(site.style),
                },
            },
        },
    }
}

/// The model of an optional site.
pub open spec fn delivered(site: Option<&Site>) -> Option<SiteView> {
    match site {
        Some(site) => Some(site@),
        None => None,
    }
}

/// Says what the routed area shows for the place that the path leads to and
/// for the site, if it is there.
pub fn render(routed: Routed, site: Option<&Site>) -> (page: Page)
    ensures
        page@ == page_for(routed, delivered(site)),
{
    match routed {
        Routed::NotFound => Page::Fallback("Page not found.".to_owned()),
        Routed::Home => match site {
            None => Page::Suspended,
            Some(site) => match decide_admission(site) {
                Admission::Fatal => Page::Fatal,
                Admission::Proceed { title } => Page::Gated {
                    title,
                    home: home_view(site.style.as_str()),
                },
            },
        },
    }
}

/// A loaded site with the recognised style shows the main page under the
/// site's title, and the site that the load produces is such a site.
pub proof fn lemma_loaded_site_shows_main_page(site: SiteView)
    requires
        site.loaded,
        site.style == example_style(),
    ensures
        page_for(Routed::Home, Some(site)) == (PageModel::Gated {
            title: site.title,
            home: HomeViewModel::MainPage,
        }),
        page_for(Routed::Home, Some(loaded_site())) == (PageModel::Gated {
            title: loaded_title(),
            home: HomeViewModel::MainPage,
        }),
{
}

/// A loaded site with any other style shows the fallback text in place of
/// the main page, and nothing else.
pub proof fn lemma_other_style_shows_fallback_text(site: SiteView)
    requires
        site.loaded,
        site.style != example_style(),
    ensures
        home_for_style(site.style) == HomeViewModel::Text(invalid_style_text()),
        page_for(Routed::Home, Some(site)) == (PageModel::Gated {
            title: site.title,
            home: HomeViewModel::Text(invalid_style_text()),
        }),
{
}

/// Every path that matches a route shows the same page: what the match
/// captured makes no difference, whatever site was delivered.
pub proof fn lemma_matched_paths_show_same_page(
    first: Seq<(Seq<char>, Seq<char>)>,
    second: Seq<(Seq<char>, Seq<char>)>,
    site: Option<SiteView>,
)
    ensures
        page_for(routed_for(Some(first)), site) == page_for(routed_for(Some(second)), site),
{
}

} // verus!
