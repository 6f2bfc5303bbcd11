//! The names of items.

use vstd::prelude::*;
use vstd::string::*;
use crate::text::{append_decimal, decimal};

verus! {

/// One component of the name of an item.
#[derive(Debug, PartialEq, Eq)]
pub enum Component {
    /// The name of a crate.
    Crate(String),
    /// A named component.
    Str(String),
    /// A component that has a number only, like a block.
    Id(u64),
}

/// The mathematical value of a [`Component`].
#[verifier::ext_equal]
pub enum ComponentView {
    /// The name of a crate.
    Crate(Seq<char>),
    /// A named component.
    Str(Seq<char>),
    /// A component that has a number only.
    Id(u64),
}

impl View for Component {
    type V = ComponentView;

    open spec fn view(&self) -> ComponentView {
        match self {
            Component::Crate(name) => ComponentView::Crate(name@),
            Component::Str(name) => ComponentView::Str(name@),
            Component::Id(id) => ComponentView::Id(*id),
        }
    }
}

impl ComponentView {
    /// How the component is shown.
    pub open spec fn shown(self) -> Seq<char> {
        match self {
            ComponentView::Crate(name) => "::"@ + name,
            ComponentView::Str(name) => name,
            ComponentView::Id(id) => "$"@ + decimal(id as nat),
        }
    }
}

impl Component {
    /// Copy the component.
    pub fn copy(&self) -> (component: Component)
        ensures
            component == *self,
    {
        match self {
            Component::Crate(name) => Component::Crate(name.clone()),
            Component::Str(name) => Component::Str(name.clone()),
            Component::Id(id) => Component::Id(*id),
        }
    }

    /// Append how the component is shown to a text.
    fn show(&self, text: &mut String)
        ensures
            final(text)@ == old(text)@ + self@.shown(),
    {
        match self {
            Component::Crate(name) => {
                text.append("::");
                text.append(name.as_str());
                assert(text@ =~= old(text)@ + self@.shown());
            },
            Component::Str(name) => text.append(name.as_str()),
            Component::Id(id) => {
                text.append("$");
                append_decimal(*id as u128, text);
                assert(text@ =~= old(text)@ + self@.shown());
            },
        }
    }
}

/// Something that can be a component of the name of an item.
pub trait IntoComponent: Sized {
    /// The component.
    spec fn component(self) -> ComponentView;

    /// Convert into the component.
    fn into_component(self) -> (component: Component)
        ensures
            component@ == self.component(),
    ;
}

impl IntoComponent for Component {
    open spec fn component(self) -> ComponentView {
        self@
    }

    fn into_component(self) -> (component: Component) {
        self
    }
}

impl IntoComponent for String {
    open spec fn component(self) -> ComponentView {
        ComponentView::Str(self@)
    }

    fn into_component(self) -> (component: Component) {
        Component::Str(self)
    }
}

impl IntoComponent for &str {
    open spec fn component(self) -> ComponentView {
        ComponentView::Str(self@)
    }

    fn into_component(self) -> (component: Component) {
        Component::Str(self.to_owned())
    }
}

/// The components that the values of a sequence are.
pub open spec fn components<N: IntoComponent>(names: Seq<N>) -> Seq<ComponentView> {
    names.map_values(|name: N| name.component())
}

/// The name of an item.
#[derive(Debug, PartialEq, Eq)]
pub struct ItemBuf {
    /// The components of the name.
    pub content: Vec<Component>,
}

impl View for ItemBuf {
    type V = Seq<ComponentView>;

    open spec fn view(&self) -> Seq<ComponentView> {
        self.content@.map_values(|component: Component| component@)
    }
}

/// How the first `n` components of the name of an item are shown.
pub open spec fn shown_components(item: Seq<ComponentView>, n: nat) -> Seq<char>
    decreases n,
{
    if n == 0 {
        Seq::empty()
    } else if n == 1 {
        item[0].shown()
    } else {
        shown_components(item, (n - 1) as nat) + "::"@ + item[n - 1].shown()
    }
}

/// How the name of an item is shown.
pub open spec fn shown_item(item: Seq<ComponentView>) -> Seq<char> {
    if item.len() == 0 {
        "{root}"@
    } else {
        shown_components(item, item.len())
    }
}

impl ItemBuf {
    /// The name of the root.
    pub fn new() -> (item: Self)
        ensures
            item@ == Seq::<ComponentView>::empty(),
    {
        ItemBuf { content: Vec::new() }
    }

    /// The name that is made of the given components.
    pub fn with_item<N: IntoComponent>(names: Vec<N>) -> (item: Self)
        ensures
            item@ == components(names@),
    {
        ItemBuf::new().extend(names)
    }

    /// The name of a crate.
    pub fn with_crate(name: &str) -> (item: Self)
        ensures
            item@ == seq![ComponentView::Crate(name@)],
    {
        let mut content: Vec<Component> = Vec::new();
        content.push(Component::Crate(name.to_owned()));
        let item = ItemBuf { content };
        assert(item@ =~= seq![ComponentView::Crate(name@)]);
        item
    }

    /// The name of an item in a crate.
    pub fn with_crate_item<N: IntoComponent>(name: &str, names: Vec<N>) -> (item: Self)
        ensures
            item@ == seq![ComponentView::Crate(name@)] + components(names@),
    {
        ItemBuf::with_crate(name).extend(names)
    }

    /// The name of an item inside of this one.
    pub fn join<N: IntoComponent>(&self, names: Vec<N>) -> (item: Self)
        ensures
            item@ == self@ + components(names@),
    {
        self.copy().extend(names)
    }

    /// The name of the item with the given name inside of this one.
    pub fn join_item(&self, other: &ItemBuf) -> (item: Self)
        ensures
            item@ == self@ + other@,
    {
        let item = self.join(other.copy().content);
        assert(item@ =~= self@ + other@);
        item
    }

    /// Copy the name.
    pub fn copy(&self) -> (item: Self)
        ensures
            item@ == self@,
            item.content@ == self.content@,
    {
        let mut content: Vec<Component> = Vec::new();
        let mut i: usize = 0;

        while i < self.content.len()
            invariant
                i <= self.content@.len(),
                content@ =~= self.content@.take(i as int),
            decreases self.content@.len() - i,
        {
            content.push(self.content[i].copy());
            i += 1;
        }

        ItemBuf { content }
    }

    /// Put components behind the last one.
    fn extend<N: IntoComponent>(self, names: Vec<N>) -> (item: Self)
        ensures
            item@ == self@ + components(names@),
    {
        let mut names = names;
        let mut rest: Vec<Component> = Vec::new();
        let ghost all = names@;

        while names.len() > 0
            invariant
                names@ =~= all.take(names@.len() as int),
                names@.len() + rest@.len() == all.len(),
                forall|j: int|
                    0 <= j < rest@.len() ==> (#[trigger] rest@[j])@ == all[all.len() - 1
                        - j].component(),
            decreases names.len(),
        {
            if let Some(name) = names.pop() {
                rest.push(name.into_component());
            }
        }

        let mut content: Vec<Component> = self.content;

        while rest.len() > 0
            invariant
                content@.len() + rest@.len() == self.content@.len() + all.len(),
                self.content@.len() <= content@.len(),
                forall|j: int|
                    0 <= j < self.content@.len() ==> #[trigger] content@[j] == self.content@[j],
                forall|j: int|
                    self.content@.len() <= j < content@.len() ==> (#[trigger] content@[j])@ == all[j
                        - self.content@.len()].component(),
                forall|j: int|
                    0 <= j < rest@.len() ==> (#[trigger] rest@[j])@ == all[all.len() - 1
                        - j].component(),
            decreases rest.len(),
        {
            if let Some(component) = rest.pop() {
                content.push(component);
            }
        }

        let item = ItemBuf { content };
        assert(item@ =~= self@ + components(all));
        item
    }

    /// How the name is shown.
    pub fn display(&self) -> (text: String)
        ensures
            text@ == shown_item(self@),
    {
        if self.content.len() == 0 {
            return "{root}".to_owned();
        }

        let mut text = String::new();
        self.content[0].show(&mut text);
        let mut n: usize = 1;
        assert(text@ =~= shown_components(self@, 1));

        while n < self.content.len()
            invariant
                1 <= n <= self.content@.len(),
                text@ == shown_components(self@, n as nat),
            decreases self.content@.len() - n,
        {
            text.append("::");
            self.content[n].show(&mut text);
            n += 1;
        }

        text
    }
}

} // verus!
