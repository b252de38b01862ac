//! The themes that the enclosing scopes provide.

use crate::style::{default_theme, Theme};
use vstd::prelude::*;

verus! {

/// The themes in force at one place of the tree, the outermost first. A
/// provider adds its theme when its scope is entered and takes it away when
/// the scope is left; no theme is ever changed in place.
pub struct ThemeContext {
    provided: Vec<Theme>,
}

/// The theme of the nearest enclosing provider, or the default theme where
/// there is none.
pub open spec fn nearest_of(provided: Seq<Theme>) -> Theme {
    if provided.len() > 0 {
        provided.last()
    } else {
        default_theme()
    }
}

impl View for ThemeContext {
    type V = Seq<Theme>;

    closed spec fn view(&self) -> Seq<Theme> {
        self.provided@
    }
}

impl ThemeContext {
    /// The context outside every provider.
    pub fn new() -> (context: ThemeContext)
        ensures
            context@ == Seq::<Theme>::empty(),
    {
        ThemeContext { provided: Vec::new() }
    }

    /// Enters the scope of a provider: its theme shadows the ones around
    /// it.
    pub fn provide(&mut self, theme: Theme)
        ensures
            final(self)@ == old(self)@.push(theme),
    {
        self.provided.push(theme);
    }

    /// Leaves the scope of the innermost provider and hands back its
    /// theme. Outside every provider there is nothing to leave.
    pub fn leave(&mut self) -> (left: Option<Theme>)
        ensures
            left == if old(self)@.len() > 0 {
                Some(old(self)@.last())
            } else {
                None
            },
            final(self)@ == if old(self)@.len() > 0 {
                old(self)@.drop_last()
            } else {
                old(self)@
            },
    {
        self.provided.pop()
    }

    /// The theme that a composition at this place resolves against.
    pub fn nearest(&self) -> (theme: Theme)
        ensures
            theme == nearest_of(self@),
    {
        let n = self.provided.len();
        if n > 0 {
            self.provided[n - 1]
        } else {
            Theme::default()
        }
    }

    /// How many providers enclose this place.
    pub fn depth(&self) -> (n: usize)
        ensures
            n == self@.len(),
    {
        self.provided.len()
    }
}

} // verus!
