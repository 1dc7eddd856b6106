use site_core::gate::{GateAction, GateEvent, LoaderGate};
use site_core::home::HomeView;
use site_core::page::{render, Page};
use site_core::route::{resolve, Routed};
use site_core::site::{load, Site};

#[test]
fn unmatched_path_shows_the_not_found_text() {
    let expected = Page::Fallback(String::from("Page not found."));
    assert_eq!(render(Routed::NotFound, None), expected);
    assert_eq!(render(Routed::NotFound, Some(&load())), expected);
    assert_eq!(render(Routed::NotFound, Some(&Site::default())), expected);
}

#[test]
fn home_is_suspended_until_the_site_is_there() {
    assert_eq!(render(Routed::Home, None), Page::Suspended);
}

#[test]
fn site_without_loaded_flag_is_fatal() {
    assert_eq!(render(Routed::Home, Some(&Site::default())), Page::Fatal);
    let site = Site { loaded: false, title: String::from("T"), style: String::from("example") };
    assert_eq!(render(Routed::Home, Some(&site)), Page::Fatal);
}

#[test]
fn loaded_site_shows_the_main_page_under_its_title() {
    assert_eq!(
        render(Routed::Home, Some(&load())),
        Page::Gated {
            title: String::from("Welcome from Leptos site data"),
            home: HomeView::MainPage,
        }
    );
}

#[test]
fn unknown_style_shows_the_fallback_text_under_the_title() {
    let site = Site { loaded: true, title: String::from("T"), style: String::from("dark") };
    assert_eq!(
        render(Routed::Home, Some(&site)),
        Page::Gated { title: String::from("T"), home: HomeView::Text(String::from("Invalid style")) }
    );
}

#[test]
fn root_and_page_id_show_the_identical_page() {
    let site = load();
    let at_root = render(resolve("/"), Some(&site));
    let at_page = render(resolve("/abc123"), Some(&site));
    assert_eq!(at_root, at_page);
    assert_eq!(
        at_root,
        Page::Gated {
            title: String::from("Welcome from Leptos site data"),
            home: HomeView::MainPage,
        }
    );
    assert_eq!(render(resolve("/"), None), render(resolve("/abc123"), None));
}

#[test]
fn page_load_from_first_observation_to_main_page() {
    let mut gate = LoaderGate::new();
    let routed = resolve("/");
    assert_eq!(gate.step(GateEvent::Observe), GateAction::StartLoad);
    assert_eq!(render(routed, None), Page::Suspended);
    assert_eq!(gate.step(GateEvent::Loaded(load())), GateAction::Resume);
    match gate.step(GateEvent::Observe) {
        GateAction::Deliver(site) => {
            assert!(site.loaded);
            assert_eq!(
                render(routed, Some(&site)),
                Page::Gated {
                    title: String::from("Welcome from Leptos site data"),
                    home: HomeView::MainPage,
                }
            );
        }
        other => panic!("expected the site, got {:?}", other),
    }
}
