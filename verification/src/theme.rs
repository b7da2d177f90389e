//! Style selectors and the theme table that maps them to colors.
//!
//! A `Selector` is a style-matching key (usually a widget class name). It is
//! attached to entities as a component and doubles as the lookup key of a
//! `Theme`. Theme data is explicit configuration: a list of rules, searched
//! front to back, with a fallback color when no rule applies.

use vstd::prelude::*;
use crate::structs::Color;

verus! {

/// Ghost model of a selector: the optional class name as a character sequence.
#[verifier::ext_equal]
pub struct SelectorView {
    pub name: Option<Seq<char>>,
}

/// A style-matching key, e.g. the widget class "button".
#[derive(Debug, PartialEq)]
pub struct Selector {
    pub name: Option<String>,
}

impl View for Selector {
    type V = SelectorView;

    open spec fn view(&self) -> SelectorView {
        SelectorView {
            name: match self.name {
                Some(n) => Some(n@),
                None => None,
            },
        }
    }
}

impl Selector {
    pub fn new(name: Option<&str>) -> (s: Selector)
        ensures
            s@.name == match name {
                Some(n) => Some(n@),
                None => None::<Seq<char>>,
            },
    {
        Selector {
            name: match name {
                Some(n) => Some(n.to_owned()),
                None => None,
            },
        }
    }

    /// An exact copy; the component store hands out borrows, so callers that
    /// need to keep a selector past a borrow take a copy.
    pub fn duplicate(&self) -> (s: Selector)
        ensures
            s@ == self@,
    {
        Selector {
            name: match &self.name {
                Some(n) => Some(n.clone()),
                None => None,
            },
        }
    }
}

/// Two selector names pick the same style if and only if they are equal.
pub open spec fn same_name(a: Option<Seq<char>>, b: Option<Seq<char>>) -> bool {
    match (a, b) {
        (Some(x), Some(y)) => x == y,
        (None, None) => true,
        _ => false,
    }
}

fn name_matches(a: &Option<String>, b: &Option<String>) -> (r: bool)
    ensures
        r == same_name(
            match a { Some(x) => Some(x@), None => None },
            match b { Some(y) => Some(y@), None => None },
        ),
{
    match (a, b) {
        (Some(x), Some(y)) => *x == *y,
        (None, None) => true,
        _ => false,
    }
}

/// Ghost model of one theme rule.
#[verifier::ext_equal]
pub struct ThemeRuleView {
    pub property: Seq<char>,
    pub selector: SelectorView,
    pub color: Color,
}

/// One theme rule: for entities whose selector matches `selector`, the styled
/// property `property` (e.g. "background") has the value `color`.
#[derive(Debug)]
pub struct ThemeRule {
    pub property: String,
    pub selector: Selector,
    pub color: Color,
}

impl View for ThemeRule {
    type V = ThemeRuleView;

    open spec fn view(&self) -> ThemeRuleView {
        ThemeRuleView { property: self.property@, selector: self.selector@, color: self.color }
    }
}

impl ThemeRule {
    pub fn new(property: &str, selector: Selector, color: Color) -> (r: ThemeRule)
        ensures
            r@ == (ThemeRuleView { property: property@, selector: selector@, color }),
    {
        ThemeRule { property: property.to_owned(), selector, color }
    }
}

/// Ghost model of a theme: its rules in order, and the fallback color.
#[verifier::ext_equal]
pub struct ThemeView {
    pub rules: Seq<ThemeRuleView>,
    pub fallback: Color,
}

/// The color a theme gives to `property` under `selector`: the first rule in
/// order whose property and selector name both match, else the fallback.
pub open spec fn theme_color(
    rules: Seq<ThemeRuleView>,
    fallback: Color,
    property: Seq<char>,
    selector: SelectorView,
) -> Color
    decreases rules.len(),
{
    if rules.len() == 0 {
        fallback
    } else if rules[0].property == property && same_name(rules[0].selector.name, selector.name) {
        rules[0].color
    } else {
        theme_color(rules.drop_first(), fallback, property, selector)
    }
}

/// A theme: explicit style configuration scoped to the application that owns
/// it. Parsing of style sheets is out of scope; rules are inserted directly.
#[derive(Debug)]
pub struct Theme {
    rules: Vec<ThemeRule>,
    fallback: Color,
}

impl View for Theme {
    type V = ThemeView;

    closed spec fn view(&self) -> ThemeView {
        ThemeView {
            rules: self.rules@.map_values(|r: ThemeRule| r@),
            fallback: self.fallback,
        }
    }
}

impl Theme {
    /// An empty theme whose every lookup yields an opaque black.
    pub fn new() -> (t: Theme)
        ensures
            t@.rules == Seq::<ThemeRuleView>::empty(),
            t@.fallback == (Color { r: 0, g: 0, b: 0, a: 255 }),
    {
        Theme { rules: Vec::new(), fallback: Color { r: 0, g: 0, b: 0, a: 255 } }
    }

    pub fn with_fallback(self, fallback: Color) -> (t: Theme)
        ensures
            t@.rules == self@.rules,
            t@.fallback == fallback,
    {
        Theme { rules: self.rules, fallback }
    }

    /// Appends a rule; later rules only apply where no earlier rule matches.
    pub fn add_rule(&mut self, rule: ThemeRule)
        ensures
            final(self)@.rules == old(self)@.rules.push(rule@),
            final(self)@.fallback == old(self)@.fallback,
    {
        self.rules.push(rule);
        proof {
            assert(final(self)@.rules =~= old(self)@.rules.push(rule@));
        }
    }

    /// The color of `property` for an entity styled by `selector`.
    pub fn color(&self, property: &String, selector: &Selector) -> (c: Color)
        ensures
            c == theme_color(self@.rules, self@.fallback, property@, selector@),
    {
        let n = self.rules.len();
        proof {
            assert(self@.rules.skip(0) =~= self@.rules);
        }
        for i in 0..n
            invariant
                n == self.rules.len(),
                theme_color(self@.rules, self@.fallback, property@, selector@)
                    == theme_color(self@.rules.skip(i as int), self@.fallback, property@, selector@),
        {
            let rule = &self.rules[i];
            proof {
                assert(self@.rules[i as int] == self.rules@[i as int]@);
                assert(self@.rules.skip(i as int)[0] == self@.rules[i as int]);
            }
            if rule.property == *property && name_matches(&rule.selector.name, &selector.name) {
                return rule.color;
            }
            proof {
                assert(self@.rules.skip(i as int).drop_first() =~= self@.rules.skip(i + 1));
            }
        }
        proof {
            assert(self@.rules.skip(n as int).len() == 0);
        }
        self.fallback
    }
}

} // verus!
