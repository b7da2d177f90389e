//! Theme rules and selector matching.

use orbtk::structs::Color;
use orbtk::theme::{Selector, Theme, ThemeRule};

#[test]
fn empty_theme_answers_with_the_fallback() {
    let theme = Theme::new();
    let c = theme.color(&"background".to_string(), &Selector::new(Some("window")));
    assert_eq!(c, Color::rgb(0, 0, 0));
}

#[test]
fn matching_rule_wins_over_fallback() {
    let mut theme = Theme::new().with_fallback(Color::rgb(1, 1, 1));
    theme.add_rule(ThemeRule::new(
        "background",
        Selector::new(Some("button")),
        Color::rgb(20, 30, 40),
    ));
    let c = theme.color(&"background".to_string(), &Selector::new(Some("button")));
    assert_eq!(c, Color::rgb(20, 30, 40));
}

#[test]
fn rule_requires_both_property_and_selector_to_match() {
    let mut theme = Theme::new().with_fallback(Color::rgb(5, 5, 5));
    theme.add_rule(ThemeRule::new(
        "background",
        Selector::new(Some("button")),
        Color::rgb(20, 30, 40),
    ));
    let wrong_property = theme.color(&"border".to_string(), &Selector::new(Some("button")));
    assert_eq!(wrong_property, Color::rgb(5, 5, 5));
    let wrong_selector = theme.color(&"background".to_string(), &Selector::new(Some("label")));
    assert_eq!(wrong_selector, Color::rgb(5, 5, 5));
}

#[test]
fn first_matching_rule_wins() {
    let mut theme = Theme::new();
    theme.add_rule(ThemeRule::new(
        "background",
        Selector::new(Some("button")),
        Color::rgb(10, 10, 10),
    ));
    theme.add_rule(ThemeRule::new(
        "background",
        Selector::new(Some("button")),
        Color::rgb(90, 90, 90),
    ));
    let c = theme.color(&"background".to_string(), &Selector::new(Some("button")));
    assert_eq!(c, Color::rgb(10, 10, 10));
}

#[test]
fn nameless_selectors_match_each_other() {
    let mut theme = Theme::new();
    theme.add_rule(ThemeRule::new("background", Selector::new(None), Color::rgb(7, 8, 9)));
    let hit = theme.color(&"background".to_string(), &Selector::new(None));
    assert_eq!(hit, Color::rgb(7, 8, 9));
    let miss = theme.color(&"background".to_string(), &Selector::new(Some("window")));
    assert_eq!(miss, Color::rgb(0, 0, 0));
}

#[test]
fn selector_duplicate_is_equal() {
    let s = Selector::new(Some("window"));
    assert_eq!(s.duplicate(), s);
    let anonymous = Selector::new(None);
    assert_eq!(anonymous.duplicate(), anonymous);
}
