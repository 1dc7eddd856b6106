use site_core::home::{home_view, HomeView};
use site_core::site::load;

#[test]
fn example_style_selects_the_main_page() {
    assert_eq!(home_view("example"), HomeView::MainPage);
}

#[test]
fn loaded_site_selects_the_main_page() {
    let site = load();
    assert!(site.loaded);
    assert_eq!(home_view(&site.style), HomeView::MainPage);
}

#[test]
fn other_styles_give_the_fallback_text() {
    let expected = HomeView::Text(String::from("Invalid style"));
    assert_eq!(home_view("other"), expected);
    assert_eq!(home_view(""), expected);
    assert_eq!(home_view("Example"), expected);
    assert_eq!(home_view("example "), expected);
    assert_eq!(home_view(" example"), expected);
    assert_eq!(home_view("exampl"), expected);
    assert_eq!(home_view("examples"), expected);
}
