//! The theme: a table from scope names to styles.

use crate::graphics::Style;
use vstd::hash_map::StringHashMap;
use vstd::prelude::*;

verus! {

/// The styles that a theme defines, by scope name.
pub struct Theme {
    styles: StringHashMap<Style>,
}

impl View for Theme {
    type V = Map<Seq<char>, Style>;

    closed spec fn view(&self) -> Map<Seq<char>, Style> {
        self.styles@
    }
}

impl Theme {
    /// Whether the theme defines a style for `scope`.
    pub open spec fn defines(&self, scope: Seq<char>) -> bool {
        self@.contains_key(scope)
    }

    /// The style of `scope`, where the theme defines one.
    pub open spec fn lookup(&self, scope: Seq<char>) -> Option<Style> {
        if self.defines(scope) {
            Some(self@[scope])
        } else {
            None
        }
    }

    /// A theme that defines no style.
    pub fn new() -> (theme: Theme)
        ensures
            theme@ == Map::<Seq<char>, Style>::empty(),
    {
        Theme { styles: StringHashMap::new() }
    }

    /// Defines the style of `scope`, in place of an earlier one if there was
    /// one.
    pub fn set(&mut self, scope: &str, style: Style)
        ensures
            final(self)@ == old(self)@.insert(scope@, style),
    {
        self.styles.insert(scope.to_owned(), style);
    }

    /// The style of `scope`, or `None` where the theme has none for it.
    pub fn try_get(&self, scope: &str) -> (style: Option<Style>)
        ensures
            style == self.lookup(scope@),
    {
        match self.styles.get(scope) {
            Some(style) => Some(*style),
            None => None,
        }
    }

    /// The style of a scope that the theme defines.
    pub fn get(&self, scope: &str) -> (style: Style)
        requires
            self.defines(scope@),
        ensures
            style == self@[scope@],
    {
        match self.styles.get(scope) {
            Some(style) => *style,
            None => unreached(),
        }
    }
}

} // verus!
