//! Page logic of a small server-rendered site.
//!
//! - [`site`]: the site's metadata and the load that produces it.
//! - [`gate`]: the loader gate, which has the site loaded once per page load
//!   and hands every view the same value.
//! - [`route`]: the route table, matched by `leptos_router`.
//! - [`home`]: the page variant that the site's style selects.
//! - [`page`]: what the routed area shows, from the route, the site and the
//!   style together.
//! - [`counter`]: the click counter of the main page.
//! - [`scroll`]: when the scroll-to-top affordance is shown, and what it asks
//!   for.
//! - [`text`]: comparison of texts.
//!
//! The views themselves, and everything that waits, reads the window or
//! scrolls it, are the caller's: the functions here take plain values and say
//! what is to be shown or done.

pub mod counter;
pub mod gate;
pub mod home;
pub mod page;
pub mod route;
pub mod scroll;
pub mod site;
pub mod text;
