//! The route table: which paths lead to the home view.
//!
//! There are two routes below one parent: the index route and a route with
//! one parameter. Both lead to the same view, and the parameter is not read.

use vstd::prelude::*;

use leptos_router::{MatchParams, NestedRoute, ParamSegment, RouteDefs, StaticSegment};

verus! {

/// Path of the parent route that wraps every page.
pub const ROOT_PATH: &'static str = "/";

/// Path of the index route, below the parent.
pub const INDEX_PATH: &'static str = "";

/// Name of the parameter that the second route captures.
pub const PAGE_PARAM: &'static str = "page_id";

/// What the router's matcher returns for `path` on the route tree that has
/// the static parent `root` with two children, the static route `index` and a
/// route of the one parameter `param`: the parameters that the match
/// captured, each with its name and value, or `None` when no route matches.
pub uninterp spec fn nested_match(
    root: Seq<char>,
    index: Seq<char>,
    param: Seq<char>,
    path: Seq<char>,
) -> Option<Seq<(Seq<char>, Seq<char>)>>;

/// Builds the route tree of `leptos_router` that has the static parent `root`
/// with two children, the static route `index` and a route of the one
/// parameter `param`, calls `RouteDefs::match_route` on it with `path`, and
/// hands out the parameters of the match as owned strings. Building the tree
/// takes three route ids from the router's counter and has no other effect.
/// The contract claims nothing but that the result is a function of the four
/// texts.
#[verifier::external_body]
fn match_nested(root: &'static str, index: &'static str, param: &'static str, path: &str) -> (matched:
    Option<Vec<(String, String)>>)
    ensures
        matched.deep_view() == nested_match(root@, index@, param@, path@),
{
    let children = (
        NestedRoute::new(StaticSegment(index), ()),
        NestedRoute::new((ParamSegment(param),), ()),
    );
    let routes = RouteDefs::new(NestedRoute::new(StaticSegment(root), ()).child(children));
    let found = routes.match_route(path)?;
    Some(found.to_params().into_iter().map(|(name, value)| (name.into_owned(), value)).collect())
}

/// Where a path leads.
#[derive(Clone, Copy, Debug, PartialEq, Eq, Structural)]
pub enum Routed {
    /// To the home view, behind the loader gate.
    Home,
    /// Nowhere: no route matches.
    NotFound,
}

/// Every match leads to the home view, whatever it captured; no match leads
/// nowhere.
pub open spec fn routed_for(matched: Option<Seq<(Seq<char>, Seq<char>)>>) -> Routed {
    if matched is Some {
        Routed::Home
    } else {
        Routed::NotFound
    }
}

/// Where `path` leads: to the place of its match against the site's routes.
pub open spec fn routed_for_path(path: Seq<char>) -> Routed {
    routed_for(nested_match(ROOT_PATH@, INDEX_PATH@, PAGE_PARAM@, path))
}

/// Says where a match of the router leads. The captured parameters are
/// accepted and not read.
pub fn route_of_match(matched: &Option<Vec<(String, String)>>) -> (routed: Routed)
    ensures
        routed == routed_for(matched.deep_view()),
{
    match matched {
        Some(_) => Routed::Home,
        None => Routed::NotFound,
    }
}

/// Matches `path` against the site's routes and says where it leads.
pub fn resolve(path: &str) -> (routed: Routed)
    ensures
        routed == routed_for_path(path@),
{
    let matched = match_nested(ROOT_PATH, INDEX_PATH, PAGE_PARAM, path);
    route_of_match(&matched)
}

/// The page parameter is a pass-through: two matches lead to the same place
/// whatever each of them captured.
pub proof fn lemma_parameters_are_not_read(
    first: Seq<(Seq<char>, Seq<char>)>,
    second: Seq<(Seq<char>, Seq<char>)>,
)
    ensures
        routed_for(Some(first)) == routed_for(Some(second)),
        routed_for(Some(first)) == Routed::Home,
{
}

} // verus!
