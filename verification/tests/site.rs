use site_core::site::{load, Site};

#[test]
fn load_gives_the_loaded_site() {
    let site = load();
    assert!(site.loaded);
    assert_eq!(site.title, "Welcome from Leptos site data");
    assert_eq!(site.style, "example");
}

#[test]
fn load_gives_the_same_site_each_time() {
    assert_eq!(load(), load());
}

#[test]
fn default_site_is_not_loaded() {
    let site = Site::default();
    assert!(!site.loaded);
    assert_eq!(site.title, "");
    assert_eq!(site.style, "");
}

#[test]
fn clone_keeps_every_field() {
    let site = Site { loaded: true, title: String::from("T"), style: String::from("s") };
    let copy = site.clone();
    assert!(copy.loaded);
    assert_eq!(copy.title, "T");
    assert_eq!(copy.style, "s");
    assert_eq!(copy, site);
}

#[test]
fn sites_differ_by_each_field() {
    let site = Site { loaded: true, title: String::from("T"), style: String::from("s") };
    assert_ne!(site, Site { loaded: false, title: String::from("T"), style: String::from("s") });
    assert_ne!(site, Site { loaded: true, title: String::from("U"), style: String::from("s") });
    assert_ne!(site, Site { loaded: true, title: String::from("T"), style: String::from("t") });
    assert_ne!(load(), Site::default());
}
