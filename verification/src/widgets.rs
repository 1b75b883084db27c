//! Building blocks of the dashboard chrome: keyboard shortcut listings.
//! Turning them into styled terminal spans is the renderer's concern.

use vstd::prelude::*;

verus! {

/// Mathematical image of [`Shortcut`].
pub ghost struct ShortcutView {
    pub key: Seq<char>,
    pub description: Seq<char>,
}

/// One keyboard shortcut with its description.
#[derive(Debug, Clone)]
pub struct Shortcut {
    pub key: String,
    pub description: String,
}

impl View for Shortcut {
    type V = ShortcutView;

    open spec fn view(&self) -> ShortcutView {
        ShortcutView { key: self.key@, description: self.description@ }
    }
}

impl DeepView for Shortcut {
    type V = ShortcutView;

    open spec fn deep_view(&self) -> ShortcutView {
        self@
    }
}

impl Shortcut {
    /// A shortcut labelled `key` doing `description`.
    pub fn new(key: &str, description: &str) -> (r: Shortcut)
        ensures
            r@.key == key@,
            r@.description == description@,
    {
        Shortcut { key: key.to_owned(), description: description.to_owned() }
    }
}

/// An ordered list of shortcuts, built by chaining [`ShortcutList::add`].
#[derive(Debug, Clone)]
pub struct ShortcutList(pub Vec<Shortcut>);

impl ShortcutList {
    /// An empty list.
    pub fn new() -> (r: ShortcutList)
        ensures
            r.0.deep_view() == Seq::<ShortcutView>::empty(),
    {
        let r = ShortcutList(Vec::new());
        proof {
            assert(r.0.deep_view() =~= Seq::<ShortcutView>::empty());
        }
        r
    }

    /// The list with one more shortcut at the end.
    pub fn add(self, key: &str, description: &str) -> (r: ShortcutList)
        ensures
            r.0.deep_view() == self.0.deep_view().push(
                ShortcutView { key: key@, description: description@ },
            ),
    {
        let ghost before = self.0.deep_view();
        let mut inner = self;
        inner.0.push(Shortcut::new(key, description));
        proof {
            assert(inner.0.deep_view() =~= before.push(
                ShortcutView { key: key@, description: description@ },
            ));
        }
        inner
    }
}

} // verus!
