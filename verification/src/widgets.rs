//! Notes on values of different types behind one trait: a screen running a
//! list of drawable components.

use vstd::prelude::*;
use vstd::string::StringExecFns;

verus! {

/// What a screen component can do.
pub trait Draw {
    /// Renders the component.
    fn draw(&self);
}

/// A button.
pub struct Button {
    pub width: u32,
    pub height: u32,
    pub label: String,
}

impl Draw for Button {
    fn draw(&self) {
    }
}

/// A select box.
pub struct SelectBox {
    pub width: u32,
    pub height: u32,
    pub options: Vec<String>,
}

impl Draw for SelectBox {
    fn draw(&self) {
    }
}

/// One of the component kinds a heterogeneous screen may hold, dispatching
/// `draw` by variant.
pub enum Widget {
    Button(Button),
    SelectBox(SelectBox),
}

impl Draw for Widget {
    fn draw(&self) {
        match self {
            Widget::Button(b) => b.draw(),
            Widget::SelectBox(s) => s.draw(),
        }
    }
}

/// A screen over components of differing kinds.
pub struct Screen {
    pub components: Vec<Widget>,
}

impl Screen {
    /// Draws every component in order.
    pub fn run(&self) {
        let mut k: usize = 0;
        while k < self.components.len()
            invariant
                k <= self.components@.len(),
            decreases self.components@.len() - k,
        {
            self.components[k].draw();
            k = k + 1;
        }
    }
}

/// A screen over components of one type implementing [`Draw`]: the generic
/// alternative, each instance fixed to one concrete component type.
pub struct Screen2<T: Draw> {
    pub components: Vec<T>,
}

impl<T: Draw> Screen2<T> {
    /// Draws every component in order.
    pub fn run(&self) {
        let mut k: usize = 0;
        while k < self.components.len()
            invariant
                k <= self.components@.len(),
            decreases self.components@.len() - k,
        {
            self.components[k].draw();
            k = k + 1;
        }
    }
}

/// Notes on trait objects.
#[derive(Debug)]
pub struct DynTraits {}

impl DynTraits {
    /// The notes' sample screen: a select box with three options and an OK
    /// button.
    pub fn sample_screen() -> (r: Screen)
        ensures
            r.components@.len() == 2,
            r.components@[0] matches Widget::SelectBox(s) && s.options@.len() == 3,
            r.components@[1] matches Widget::Button(b) && b.label@ == "OK"@,
    {
        let mut options: Vec<String> = Vec::new();
        options.push(String::from_str("Yes"));
        options.push(String::from_str("Maybe"));
        options.push(String::from_str("No"));
        let mut components: Vec<Widget> = Vec::new();
        components.push(Widget::SelectBox(SelectBox { width: 75, height: 10, options }));
        components.push(
            Widget::Button(Button { width: 50, height: 10, label: String::from_str("OK") }),
        );
        Screen { components }
    }
}

} // verus!
