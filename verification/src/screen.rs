//! The screen registry: every element that a screen is made of is kept with
//! the tag of the menu state that owns it, and a whole screen is torn down by
//! its tag.

use crate::menu::MenuButtonAction;
use crate::settings::Difficulty;
use vstd::prelude::*;

verus! {

/// Says which menu state an element belongs to.
#[derive(Clone, Copy, Debug, PartialEq, Eq, Hash, Structural)]
pub enum ScreenTag {
    MainScreen,
    DifficultyScreen,
    LoadScreen,
}

/// What one element of a screen is. Lengths are in pixels.
#[derive(Clone, Copy, Debug, PartialEq, Eq)]
pub enum Widget {
    /// A container in the middle of the window, its children stacked.
    Column,
    /// A container whose children sit side by side.
    Row,
    /// A line of text.
    Text { label: &'static str, font_size: u32, margin: u32 },
    /// A button. A click on it asks for `action`; a button that stands for a
    /// selectable option also carries the value it would select.
    Button {
        width: u32,
        height: u32,
        margin: u32,
        action: MenuButtonAction,
        setting: Option<Difficulty>,
    },
}

/// One element in the description of a screen. `parent` is the position of
/// the element's parent in that description; the root has none.
#[derive(Clone, Copy, Debug, PartialEq, Eq)]
pub struct Node {
    pub parent: Option<usize>,
    pub widget: Widget,
}

/// A live element: a node together with the tag of the screen it was built
/// for.
#[derive(Clone, Copy, Debug, PartialEq, Eq)]
pub struct Element {
    pub tag: ScreenTag,
    pub node: Node,
}

/// The height of every button.
pub const BUTTON_HEIGHT: u32 = 65;

/// The margin around every button.
pub const BUTTON_MARGIN: u32 = 20;

/// The font size of a button's label.
pub const LABEL_FONT_SIZE: u32 = 40;

impl Node {
    /// The root of a screen.
    pub open spec fn spec_root() -> Node {
        Node { parent: None, widget: Widget::Column }
    }

    pub open spec fn spec_row(parent: usize) -> Node {
        Node { parent: Some(parent), widget: Widget::Row }
    }

    pub open spec fn spec_text(
        parent: usize,
        label: &'static str,
        font_size: u32,
        margin: u32,
    ) -> Node {
        Node { parent: Some(parent), widget: Widget::Text { label, font_size, margin } }
    }

    pub open spec fn spec_button(
        parent: usize,
        width: u32,
        action: MenuButtonAction,
        setting: Option<Difficulty>,
    ) -> Node {
        Node {
            parent: Some(parent),
            widget: Widget::Button {
                width,
                height: BUTTON_HEIGHT,
                margin: BUTTON_MARGIN,
                action,
                setting,
            },
        }
    }

    /// The action that a click on this node asks for, if it is a button.
    pub open spec fn spec_action(self) -> Option<MenuButtonAction> {
        match self.widget {
            Widget::Button { action, .. } => Some(action),
            _ => None,
        }
    }

    /// The value that this node offers for selection, if it is an option.
    pub open spec fn spec_setting(self) -> Option<Difficulty> {
        match self.widget {
            Widget::Button { setting, .. } => setting,
            _ => None,
        }
    }

    /// The root of a screen: a column in the middle of the window.
    #[verifier::when_used_as_spec(spec_root)]
    pub fn root() -> (node: Node)
        ensures
            node == Node::spec_root(),
    {
        Node { parent: None, widget: Widget::Column }
    }

    /// A row inside `parent`.
    #[verifier::when_used_as_spec(spec_row)]
    pub fn row(parent: usize) -> (node: Node)
        ensures
            node == Node::spec_row(parent),
    {
        Node { parent: Some(parent), widget: Widget::Row }
    }

    /// A line of text inside `parent`.
    #[verifier::when_used_as_spec(spec_text)]
    pub fn text(parent: usize, label: &'static str, font_size: u32, margin: u32) -> (node: Node)
        ensures
            node == Node::spec_text(parent, label, font_size, margin),
    {
        Node { parent: Some(parent), widget: Widget::Text { label, font_size, margin } }
    }

    /// A button inside `parent`, of the usual height and margin.
    #[verifier::when_used_as_spec(spec_button)]
    pub fn button(
        parent: usize,
        width: u32,
        action: MenuButtonAction,
        setting: Option<Difficulty>,
    ) -> (node: Node)
        ensures
            node == Node::spec_button(parent, width, action, setting),
    {
        Node {
            parent: Some(parent),
            widget: Widget::Button {
                width,
                height: BUTTON_HEIGHT,
                margin: BUTTON_MARGIN,
                action,
                setting,
            },
        }
    }

    #[verifier::when_used_as_spec(spec_action)]
    pub fn action(self) -> (action: Option<MenuButtonAction>)
        ensures
            action == self.spec_action(),
    {
        match self.widget {
            Widget::Button { action, .. } => Some(action),
            _ => None,
        }
    }

    #[verifier::when_used_as_spec(spec_setting)]
    pub fn setting(self) -> (setting: Option<Difficulty>)
        ensures
            setting == self.spec_setting(),
    {
        match self.widget {
            Widget::Button { setting, .. } => setting,
            _ => None,
        }
    }
}

/// A description is a hierarchy when it starts with its root and every other
/// node names a parent that stands before it.
pub open spec fn is_hierarchy(screen: Seq<Node>) -> bool {
    &&& screen.len() > 0
    &&& screen[0].parent is None
    &&& forall|i: int|
        0 < i < screen.len() ==> (#[trigger] screen[i]).parent is Some
            && screen[i].parent->0 < i
}

/// The elements that building `screen` for `tag` creates: one for each node,
/// in order, every one of them marked with the tag.
pub open spec fn tagged(tag: ScreenTag, screen: Seq<Node>) -> Seq<Element> {
    screen.map_values(|node: Node| Element { tag, node })
}

/// The nodes of the live elements, without their tags.
pub open spec fn nodes_of(live: Seq<Element>) -> Seq<Node> {
    live.map_values(|e: Element| e.node)
}

/// The live elements that carry `tag`.
pub open spec fn with_tag(live: Seq<Element>, tag: ScreenTag) -> Seq<Element> {
    live.filter(|e: Element| e.tag == tag)
}

/// The live elements that are left when everything that carries `tag` is
/// destroyed.
pub open spec fn without(live: Seq<Element>, tag: ScreenTag) -> Seq<Element> {
    live.filter(|e: Element| e.tag != tag)
}

/// No live element carries `tag`.
pub open spec fn absent(live: Seq<Element>, tag: ScreenTag) -> bool {
    forall|i: int| 0 <= i < live.len() ==> (#[trigger] live[i]).tag != tag
}

/// The live elements of the user interface, in the order of their creation.
pub struct ScreenRegistry {
    elements: Vec<Element>,
}

impl View for ScreenRegistry {
    type V = Seq<Element>;

    closed spec fn view(&self) -> Seq<Element> {
        self.elements@
    }
}

impl ScreenRegistry {
    /// A registry without any live element.
    pub fn new() -> (registry: Self)
        ensures
            registry@ == Seq::<Element>::empty(),
    {
        ScreenRegistry { elements: Vec::new() }
    }

    /// Creates the elements that `screen` describes and marks every one of
    /// them with `tag`. What was live before stays live.
    pub fn build_screen(&mut self, tag: ScreenTag, screen: &Vec<Node>)
        ensures
            final(self)@ == old(self)@ + tagged(tag, screen@),
    {
        let ghost before = self@;
        let mut i: usize = 0;
        while i < screen.len()
            invariant
                i <= screen.len(),
                self@ == before + tagged(tag, screen@.take(i as int)),
            decreases screen.len() - i,
        {
            self.elements.push(Element { tag, node: screen[i] });
            i += 1;
        }
        proof {
            assert(screen@.take(screen.len() as int) == screen@);
        }
    }

    /// Destroys every element that carries `tag`, whatever else it holds, and
    /// nothing else. Where no element carries the tag, nothing happens.
    pub fn despawn_screen(&mut self, tag: ScreenTag)
        ensures
            final(self)@ == without(old(self)@, tag),
            absent(final(self)@, tag),
            absent(old(self)@, tag) ==> final(self)@ == old(self)@,
    {
        let ghost before = self@;
        let mut kept: Vec<Element> = Vec::new();
        let mut i: usize = 0;
        while i < self.elements.len()
            invariant
                i <= self.elements.len(),
                self@ == before,
                kept@ == without(before.take(i as int), tag),
            decreases self.elements.len() - i,
        {
            let element = self.elements[i];
            proof {
                assert(before.take(i + 1).drop_last() == before.take(i as int));
                reveal(Seq::filter);
            }
            if element.tag != tag {
                kept.push(element);
            }
            i += 1;
        }
        proof {
            assert(before.take(before.len() as int) == before);
            lemma_despawn_is_total(before, tag);
            if absent(before, tag) {
                lemma_despawn_absent(before, tag);
            }
        }
        self.elements = kept;
    }

    /// The live elements that carry `tag`, in the order of their creation.
    pub fn live(&self, tag: ScreenTag) -> (found: Vec<Element>)
        ensures
            found@ == with_tag(self@, tag),
    {
        let mut found: Vec<Element> = Vec::new();
        let mut i: usize = 0;
        while i < self.elements.len()
            invariant
                i <= self.elements.len(),
                found@ == with_tag(self@.take(i as int), tag),
            decreases self.elements.len() - i,
        {
            let element = self.elements[i];
            proof {
                assert(self@.take(i + 1).drop_last() == self@.take(i as int));
                reveal(Seq::filter);
            }
            if element.tag == tag {
                found.push(element);
            }
            i += 1;
        }
        proof {
            assert(self@.take(self@.len() as int) == self@);
        }
        found
    }

    /// All live elements, in the order of their creation.
    pub fn elements(&self) -> (all: &Vec<Element>)
        ensures
            all@ == self@,
    {
        &self.elements
    }

    /// The number of live elements.
    pub fn len(&self) -> (n: usize)
        ensures
            n == self@.len(),
    {
        self.elements.len()
    }

    /// Whether no element is live.
    pub fn is_empty(&self) -> (empty: bool)
        ensures
            empty == (self@.len() == 0),
    {
        self.elements.len() == 0
    }
}

/// After a screen is torn down, no element with its tag is left.
pub proof fn lemma_despawn_is_total(live: Seq<Element>, tag: ScreenTag)
    ensures
        absent(without(live, tag), tag),
{
    broadcast use Seq::lemma_filter_pred;
}

/// Tearing down a screen of which nothing is live changes nothing.
pub proof fn lemma_despawn_absent(live: Seq<Element>, tag: ScreenTag)
    requires
        absent(live, tag),
    ensures
        without(live, tag) == live,
    decreases live.len(),
{
    reveal(Seq::filter);
    if live.len() > 0 {
        lemma_despawn_absent(live.drop_last(), tag);
        assert(live.drop_last().push(live.last()) == live);
    }
}

/// Tearing down the same screen twice in a row does what tearing it down
/// once does: the second call changes nothing.
pub proof fn lemma_despawn_twice(live: Seq<Element>, tag: ScreenTag)
    ensures
        without(without(live, tag), tag) == without(live, tag),
{
    lemma_despawn_is_total(live, tag);
    lemma_despawn_absent(without(live, tag), tag);
}

/// Tearing down one screen leaves the elements of every other screen as
/// they are.
pub proof fn lemma_despawn_keeps_others(live: Seq<Element>, tag: ScreenTag, other: ScreenTag)
    requires
        other != tag,
    ensures
        with_tag(without(live, tag), other) == with_tag(live, other),
    decreases live.len(),
{
    reveal(Seq::filter);
    if live.len() > 0 {
        lemma_despawn_keeps_others(live.drop_last(), tag, other);
        if live.last().tag != tag {
            assert(without(live, tag).drop_last() == without(live.drop_last(), tag));
        }
    }
}

/// Every element of a screen that was just built carries the screen's tag,
/// so tearing that screen down where nothing else is live leaves nothing.
pub proof fn lemma_despawn_built(tag: ScreenTag, screen: Seq<Node>)
    ensures
        with_tag(tagged(tag, screen), tag) == tagged(tag, screen),
        without(tagged(tag, screen), tag) == Seq::<Element>::empty(),
    decreases screen.len(),
{
    reveal(Seq::filter);
    let live = tagged(tag, screen);
    if screen.len() > 0 {
        lemma_despawn_built(tag, screen.drop_last());
        assert(live.drop_last() == tagged(tag, screen.drop_last()));
        assert(live.drop_last().push(live.last()) == live);
    }
}

/// A screen that was just built has no element with another tag.
pub proof fn lemma_built_has_one_tag(tag: ScreenTag, other: ScreenTag, screen: Seq<Node>)
    requires
        other != tag,
    ensures
        with_tag(tagged(tag, screen), other) == Seq::<Element>::empty(),
    decreases screen.len(),
{
    reveal(Seq::filter);
    let live = tagged(tag, screen);
    if screen.len() > 0 {
        lemma_built_has_one_tag(tag, other, screen.drop_last());
        assert(live.drop_last() == tagged(tag, screen.drop_last()));
    }
}

} // verus!
