use vstd::prelude::*;

use crate::ui::renderer::UIRenderer;
use crate::vec2::U16Vec2;

verus! {

/// Something that draws itself on a renderer, in an area of `size`.
pub trait Widget {
    fn render(&self, renderer: &mut UIRenderer, size: U16Vec2);
}

/// Widgets shown one at a time, as tabs.
pub struct TabPanel {
    children: Vec<Box<dyn Widget>>,
    current_index: Option<usize>,
}

impl TabPanel {
    /// Tabs of `children`, the first one shown; none without children.
    pub fn new(children: Vec<Box<dyn Widget>>) -> (r: Self)
        ensures
            r.current() == (if children@.len() == 0 { None } else { Some(0usize) }),
            r.child_count() == children@.len(),
    {
        let current_index = if children.len() == 0 { None } else { Some(0) };
        TabPanel { children, current_index }
    }

    /// The index of the tab shown.
    pub closed spec fn current(&self) -> Option<usize> {
        self.current_index
    }

    /// The number of tabs.
    pub closed spec fn child_count(&self) -> nat {
        self.children@.len()
    }
}

impl Widget for TabPanel {
    /// Draws nothing yet: the tab shown gets a renderer of its own that is not drawn.
    fn render(&self, renderer: &mut UIRenderer, size: U16Vec2)
        ensures
            final(renderer)@ == old(renderer)@,
    {
        if let Some(index) = self.current_index {
            if index < self.children.len() {
                let _child_renderer = UIRenderer::new(size);
            }
        }
    }
}

/// The bar that shows the state of the editor.
pub struct InfoBar {}

impl InfoBar {
    pub fn new() -> (r: Self) {
        InfoBar {}
    }
}

impl Widget for InfoBar {
    /// Writes an empty line at the top left, which leaves the screen as it is.
    fn render(&self, renderer: &mut UIRenderer, size: U16Vec2)
        ensures
            final(renderer)@ == old(renderer)@,
    {
        let line = String::new();
        let ghost g = renderer@.grid;
        assert(crate::ui::renderer::text_fits_row(g, 0, 0, line@)) by {
            if 0 < g.len() {}
        }
        renderer.render_text(line, U16Vec2::new(0, 0));
        assert(renderer@.grid =~= g) by {
            if 0 < g.len() {
                assert(g[0].take(0) + line@ + g[0].skip(0) =~= g[0]);
            }
        }
    }
}

} // verus!
