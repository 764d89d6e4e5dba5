use vstd::prelude::*;
use vstd::string::*;

verus! {

/// Something a screen can draw; drawing yields the line to show.
pub trait Draw {
    fn draw(&self) -> String;
}

/// A push button.
pub struct Button {
    pub width: u32,
    pub height: u32,
    pub label: String,
}

/// A drop-down list of options.
pub struct SelectBox {
    pub width: u32,
    pub height: u32,
    pub options: Vec<String>,
}

/// The widgets a screen holds.
pub enum Component {
    Button(Button),
    SelectBox(SelectBox),
}

/// The line drawn for a component.
pub open spec fn drawing(c: Component) -> Seq<char> {
    match c {
        Component::Button(_) => "Drawing Button"@,
        Component::SelectBox(_) => "Drawing SelectBox"@,
    }
}

impl Draw for Component {
    fn draw(&self) -> (r: String)
        ensures
            r@ == drawing(*self),
    {
        match self {
            Component::Button(_) => String::from_str("Drawing Button"),
            Component::SelectBox(_) => String::from_str("Drawing SelectBox"),
        }
    }
}

/// A screen of components, drawn in order.
pub struct Screen {
    pub components: Vec<Component>,
}

impl Screen {
    /// Draws every component, in order, and returns the lines drawn.
    pub fn run(&self) -> (r: Vec<String>)
        ensures
            r@.len() == self.components@.len(),
            forall|i: int| 0 <= i < r@.len() ==> #[trigger] r@[i]@ == drawing(self.components@[i]),
    {
        let mut r: Vec<String> = Vec::new();
        let mut i: usize = 0;
        while i < self.components.len()
            invariant
                i <= self.components@.len(),
                r@.len() == i,
                forall|k: int| 0 <= k < i ==> #[trigger] r@[k]@ == drawing(self.components@[k]),
            decreases self.components@.len() - i,
        {
            r.push(self.components[i].draw());
            i = i + 1;
        }
        r
    }
}

} // verus!
