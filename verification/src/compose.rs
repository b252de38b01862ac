//! Component nodes and the one place where they are built.

use crate::error::Error;
use crate::style::{resolve, resolved, StyleDescriptor, StyleProps, StylePropsView, Theme};
use crate::value::{Value, ValueView};
use vstd::prelude::*;

verus! {

/// The identity of a component and the slots that it declares.
#[derive(Debug, PartialEq, Eq)]
pub struct Kind {
    pub name: String,
    pub slots: Vec<String>,
}

/// A `Kind`, with texts as their characters.
pub struct KindView {
    pub name: Seq<char>,
    pub slots: Seq<Seq<char>>,
}

/// A named property of a component.
#[derive(Debug, PartialEq, Eq)]
pub struct Attribute {
    pub name: String,
    pub value: Value,
}

/// What a component is given besides its content: its style intent and its
/// other properties. Of two properties with one name the later counts.
#[derive(Debug, PartialEq, Eq)]
pub struct Props {
    pub style: StyleProps,
    pub attributes: Vec<Attribute>,
}

/// One piece of a component's content.
#[derive(Debug, PartialEq, Eq)]
pub enum Content {
    Text(String),
    Node(ComponentNode),
}

/// Content that is meant for a named slot. Of two fills of one slot the
/// later counts.
#[derive(Debug, PartialEq, Eq)]
pub struct SlotFill {
    pub slot: String,
    pub content: Content,
}

/// The description of one composed component: what it is, its properties,
/// its resolved style, its content in order, and what fills its slots.
/// Nodes are built by `compose` and never change.
#[derive(Debug, PartialEq, Eq)]
pub struct ComponentNode {
    kind: Kind,
    attributes: Vec<Attribute>,
    children: Vec<Content>,
    fills: Vec<SlotFill>,
    style: StyleDescriptor,
}

/// A piece of content, as contracts see it.
pub enum ContentView {
    Text(Seq<char>),
    Node(NodeView),
}

/// A slot fill, as contracts see it.
pub struct FillView {
    pub slot: Seq<char>,
    pub content: ContentView,
}

/// A node, as contracts see it. Two nodes are structurally equal when
/// their views are equal.
pub struct NodeView {
    pub kind: KindView,
    /// The properties by name.
    pub props: Map<Seq<char>, ValueView>,
    pub style: StyleDescriptor,
    /// The default content, in source order.
    pub children: Seq<ContentView>,
    /// What fills each declared slot, if anything does.
    pub slots: Map<Seq<char>, Option<ContentView>>,
}

impl View for Kind {
    type V = KindView;

    open spec fn view(&self) -> KindView {
        KindView { name: self.name@, slots: names_view(self.slots@) }
    }
}

/// The texts of a list of names.
pub open spec fn names_view(names: Seq<String>) -> Seq<Seq<char>> {
    Seq::new(names.len(), |i: int| names[i]@)
}

/// An `Attribute`, as contracts see it.
pub struct AttributeView {
    pub name: Seq<char>,
    pub value: ValueView,
}

impl View for Attribute {
    type V = AttributeView;

    open spec fn view(&self) -> AttributeView {
        AttributeView { name: self.name@, value: self.value@ }
    }
}

/// The views of a list of properties.
pub open spec fn attributes_view(attributes: Seq<Attribute>) -> Seq<AttributeView> {
    Seq::new(attributes.len(), |i: int| attributes[i]@)
}

/// The mapping that a list of properties stands for.
pub open spec fn props_of(attributes: Seq<AttributeView>) -> Map<Seq<char>, ValueView>
    decreases attributes.len(),
{
    if attributes.len() == 0 {
        Map::empty()
    } else {
        props_of(attributes.drop_last()).insert(attributes.last().name, attributes.last().value)
    }
}

impl Content {
    /// The content, as contracts see it.
    pub open spec fn view(self) -> ContentView
        decreases self,
    {
        match self {
            Content::Text(t) => ContentView::Text(t@),
            Content::Node(n) => ContentView::Node(n.view()),
        }
    }
}

impl SlotFill {
    /// The fill, as contracts see it.
    pub open spec fn view(self) -> FillView
        decreases self,
    {
        FillView { slot: self.slot@, content: self.content.view() }
    }
}

/// The views of a list of contents.
pub open spec fn contents_view(contents: Seq<Content>) -> Seq<ContentView>
    decreases contents,
{
    Seq::new(
        contents.len(),
        |i: int|
            if 0 <= i < contents.len() {
                contents[i].view()
            } else {
                ContentView::Text(Seq::empty())
            },
    )
}

/// The views of a list of fills.
pub open spec fn fills_view(fills: Seq<SlotFill>) -> Seq<FillView>
    decreases fills,
{
    Seq::new(
        fills.len(),
        |i: int|
            if 0 <= i < fills.len() {
                fills[i].view()
            } else {
                FillView { slot: Seq::empty(), content: ContentView::Text(Seq::empty()) }
            },
    )
}

/// What fills the slot `name`: the content of the last fill that names it.
pub open spec fn filled(fills: Seq<FillView>, name: Seq<char>) -> Option<ContentView>
    decreases fills.len(),
{
    if fills.len() == 0 {
        None
    } else if fills.last().slot == name {
        Some(fills.last().content)
    } else {
        filled(fills.drop_last(), name)
    }
}

/// The slots of a node: one entry for each declared name.
pub open spec fn slots_of(declared: Seq<Seq<char>>, fills: Seq<FillView>) -> Map<
    Seq<char>,
    Option<ContentView>,
> {
    Map::new(|name: Seq<char>| declared.contains(name), |name: Seq<char>| filled(fills, name))
}

/// The position of the first fill, from `from` on, whose slot is not
/// declared.
pub open spec fn first_unknown(declared: Seq<Seq<char>>, fills: Seq<FillView>, from: int) -> Option<
    int,
>
    decreases fills.len() - from,
{
    if from < 0 || from >= fills.len() {
        None
    } else if !declared.contains(fills[from].slot) {
        Some(from)
    } else {
        first_unknown(declared, fills, from + 1)
    }
}

/// The node that composition yields, or why there is none: a fill of an
/// undeclared slot comes first, then a style that does not resolve.
pub open spec fn composed(
    kind: KindView,
    style: StylePropsView,
    attributes: Seq<AttributeView>,
    children: Seq<ContentView>,
    fills: Seq<FillView>,
    theme: Theme,
) -> Result<NodeView, Error> {
    match first_unknown(kind.slots, fills, 0) {
        Some(position) => Err(Error::UnknownSlot { position: position as usize }),
        None => match resolved(style, theme) {
            Err(e) => Err(e),
            Ok(descriptor) => Ok(
                NodeView {
                    kind,
                    props: props_of(attributes),
                    style: descriptor,
                    children,
                    slots: slots_of(kind.slots, fills),
                },
            ),
        },
    }
}

impl ComponentNode {
    /// The node, as contracts see it.
    pub closed spec fn view(self) -> NodeView
        decreases self,
    {
        NodeView {
            kind: self.kind@,
            props: props_of(attributes_view(self.attributes@)),
            style: self.style,
            children: contents_view(self.children@),
            slots: slots_of(self.kind@.slots, fills_view(self.fills@)),
        }
    }
}

/// What a lookup in a mapping yields.
pub open spec fn lookup<V>(map: Map<Seq<char>, V>, name: Seq<char>) -> Option<V> {
    if map.contains_key(name) {
        Some(map[name])
    } else {
        None
    }
}

/// What a lookup of a slot yields: its content, if the slot is declared
/// and filled.
pub open spec fn slot_content(node: NodeView, name: Seq<char>) -> Option<ContentView> {
    match lookup(node.slots, name) {
        Some(Some(content)) => Some(content),
        _ => None,
    }
}

/// The view of content that was looked up.
pub open spec fn found_view(found: Option<&Content>) -> Option<ContentView> {
    match found {
        Some(content) => Some(content.view()),
        None => None,
    }
}

/// The view of a value that was looked up.
pub open spec fn found_value(found: Option<&Value>) -> Option<ValueView> {
    match found {
        Some(value) => Some(value@),
        None => None,
    }
}

impl Kind {
    /// A kind that declares the given slots.
    pub fn new(name: &str, slots: Vec<String>) -> (kind: Kind)
        ensures
            kind@ == (KindView { name: name@, slots: names_view(slots@) }),
    {
        Kind { name: name.to_owned(), slots }
    }

    /// A kind without slots.
    pub fn plain(name: &str) -> (kind: Kind)
        ensures
            kind@ == (KindView { name: name@, slots: Seq::empty() }),
    {
        let kind = Kind { name: name.to_owned(), slots: Vec::new() };
        proof {
            assert(kind@.slots =~= Seq::empty());
        }
        kind
    }

    /// The button: it declares the slots `left` and `right`, which hold
    /// what stands before and after its content.
    pub fn button() -> (kind: Kind)
        ensures
            kind@ == (KindView { name: "Button"@, slots: seq!["left"@, "right"@] }),
    {
        let mut slots: Vec<String> = Vec::new();
        slots.push("left".to_owned());
        slots.push("right".to_owned());
        let kind = Kind { name: "Button".to_owned(), slots };
        proof {
            assert(kind@.slots =~= seq!["left"@, "right"@]);
        }
        kind
    }
}

impl Content {
    /// Text content.
    pub fn text(text: &str) -> (content: Content)
        ensures
            content.view() == ContentView::Text(text@),
    {
        Content::Text(text.to_owned())
    }

    /// A value as text content.
    pub fn value(value: &Value) -> (content: Content)
        ensures
            content.view() == ContentView::Text(value@.text()),
    {
        Content::Text(value.to_text())
    }
}

impl SlotFill {
    /// Content for the slot `slot`.
    pub fn new(slot: &str, content: Content) -> (fill: SlotFill)
        ensures
            fill.view() == (FillView { slot: slot@, content: content.view() }),
    {
        SlotFill { slot: slot.to_owned(), content }
    }
}

impl Attribute {
    /// The property `name` with the value `value`.
    pub fn new(name: &str, value: Value) -> (attribute: Attribute)
        ensures
            attribute@ == (AttributeView { name: name@, value: value@ }),
    {
        Attribute { name: name.to_owned(), value }
    }
}

impl ComponentNode {
    /// What the node is.
    pub fn kind(&self) -> (kind: &Kind)
        ensures
            kind@ == self.view().kind,
    {
        &self.kind
    }

    /// The resolved style of the node.
    pub fn style(&self) -> (style: StyleDescriptor)
        ensures
            style == self.view().style,
    {
        self.style
    }

    /// The default content of the node, in source order.
    pub fn children(&self) -> (children: &Vec<Content>)
        ensures
            contents_view(children@) == self.view().children,
    {
        &self.children
    }

    /// The value of the property `name`, if the node has one.
    pub fn prop(&self, name: &str) -> (found: Option<&Value>)
        ensures
            found_value(found) == lookup(self.view().props, name@),
    {
        let ghost all = attributes_view(self.attributes@);
        let wanted = name.to_owned();
        let mut i: usize = self.attributes.len();
        proof {
            assert(all.take(i as int) =~= all);
        }
        while i > 0
            invariant
                i <= self.attributes@.len(),
                wanted@ == name@,
                all == attributes_view(self.attributes@),
                lookup(props_of(all), name@) == lookup(props_of(all.take(i as int)), name@),
            decreases i,
        {
            proof {
                let part = all.take(i as int);
                assert(part.drop_last() =~= all.take(i - 1));
                assert(part.last() == self.attributes@[i - 1]@);
            }
            i = i - 1;
            if self.attributes[i].name == wanted {
                return Some(&self.attributes[i].value);
            }
        }
        proof {
            assert(all.take(0) =~= Seq::empty());
        }
        None
    }

    /// The content of the slot `name`, if the kind declares the slot and
    /// the node was given content for it.
    pub fn slot(&self, name: &str) -> (found: Option<&Content>)
        ensures
            found_view(found) == slot_content(self.view(), name@),
    {
        let ghost all = fills_view(self.fills@);
        let wanted = name.to_owned();
        if !declares_name(&self.kind, &wanted) {
            return None;
        }
        let mut i: usize = self.fills.len();
        proof {
            assert(all.take(i as int) =~= all);
        }
        while i > 0
            invariant
                i <= self.fills@.len(),
                wanted@ == name@,
                self.kind@.slots.contains(name@),
                all == fills_view(self.fills@),
                filled(all, name@) == filled(all.take(i as int), name@),
            decreases i,
        {
            proof {
                let part = all.take(i as int);
                assert(part.drop_last() =~= all.take(i - 1));
                assert(part.last() == self.fills@[i - 1].view());
            }
            i = i - 1;
            if self.fills[i].slot == wanted {
                return Some(&self.fills[i].content);
            }
        }
        proof {
            assert(all.take(0) =~= Seq::empty());
        }
        None
    }
}

/// What `compose` returns, as contracts see it.
pub open spec fn outcome_view(r: Result<ComponentNode, Error>) -> Result<NodeView, Error> {
    match r {
        Ok(node) => Ok(node.view()),
        Err(e) => Err(e),
    }
}

fn declares_name(kind: &Kind, name: &String) -> (b: bool)
    ensures
        b == kind@.slots.contains(name@),
{
    let mut i: usize = 0;
    while i < kind.slots.len()
        invariant
            i <= kind.slots@.len(),
            forall|k: int| 0 <= k < i ==> kind@.slots[k] != name@,
        decreases kind.slots@.len() - i,
    {
        if kind.slots[i] == *name {
            assert(kind@.slots[i as int] == name@);
            return true;
        }
        i = i + 1;
    }
    false
}

/// Composes a component of `kind` from its properties, its content and the
/// fills of its slots, under the theme of its scope. The content becomes
/// the node's default content, in the order given. Every fill must name a
/// slot that the kind declares: the first that does not is reported as
/// `UnknownSlot`. The style is resolved against the theme; a gradient
/// endpoint that is no color is reported as `InvalidColorSpec`.
pub fn compose(
    kind: Kind,
    props: Props,
    children: Vec<Content>,
    fills: Vec<SlotFill>,
    theme: &Theme,
) -> (r: Result<ComponentNode, Error>)
    ensures
        outcome_view(r) == composed(
            kind@,
            props.style@,
            attributes_view(props.attributes@),
            contents_view(children@),
            fills_view(fills@),
            *theme,
        ),
{
    let mut i: usize = 0;
    while i < fills.len()
        invariant
            i <= fills@.len(),
            first_unknown(kind@.slots, fills_view(fills@), 0) == first_unknown(
                kind@.slots,
                fills_view(fills@),
                i as int,
            ),
        decreases fills@.len() - i,
    {
        assert(fills_view(fills@)[i as int].slot == fills@[i as int].slot@);
        if !declares_name(&kind, &fills[i].slot) {
            assert(first_unknown(kind@.slots, fills_view(fills@), i as int) == Some(i as int));
            return Err(Error::UnknownSlot { position: i });
        }
        i = i + 1;
    }
    match resolve(&props.style, theme) {
        Err(e) => Err(e),
        Ok(style) => {
            let node = ComponentNode { kind, attributes: props.attributes, children, fills, style };
            Ok(node)
        },
    }
}

} // verus!
