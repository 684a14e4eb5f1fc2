//! The module aggregate that collects the decoded sections.

use crate::types::{section_views, SectionView, WasmSection};
use vstd::prelude::*;

verus! {

/// A decoded module: its version and its sections in the order in which the
/// input holds them.
#[derive(Debug)]
pub struct WasmModule {
    pub version: u32,
    pub sections: Vec<WasmSection>,
}

/// The mathematical value of a [`WasmModule`].
pub ghost struct ModuleView {
    pub version: u32,
    pub sections: Seq<SectionView>,
}

impl View for WasmModule {
    type V = ModuleView;

    open spec fn view(&self) -> ModuleView {
        ModuleView {
            version: self.version,
            sections: section_views(self.sections@),
        }
    }
}

impl Default for WasmModule {
    /// The empty module: version 0 and no section.
    fn default() -> (r: Self)
        ensures
            r@.version == 0,
            r@.sections == Seq::<SectionView>::empty(),
    {
        let r = WasmModule { version: 0, sections: Vec::new() };
        assert(r@.sections =~= Seq::<SectionView>::empty());
        r
    }
}

impl WasmModule {
    /// Appends one decoded section behind those consumed before.
    pub fn consume(&mut self, section: WasmSection)
        ensures
            final(self)@.version == old(self)@.version,
            final(self)@.sections == old(self)@.sections.push(section@),
    {
        self.sections.push(section);
        assert(self@.sections =~= old(self)@.sections.push(section@));
    }
}

} // verus!
