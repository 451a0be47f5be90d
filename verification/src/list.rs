//! The list style struct: Gecko's `nsStyleList` and `list-style-type`.
use vstd::prelude::*;
use std::sync::Arc;
use crate::keywords::{ListStyleType, spec_list_style_type_to_gecko};
use crate::consts;

verus! {

/// Gecko's `nsStyleList`, as far as the style system reads and writes it:
/// the counter style, named by its Gecko constant.
#[derive(Clone, Copy, Debug, PartialEq, Eq, Structural)]
pub struct NsStyleList {
    pub list_style_type: u32,
}

/// The list style struct.
#[derive(Debug)]
pub struct GeckoList {
    pub gecko: NsStyleList,
}

impl GeckoList {
    /// Whether the struct holds the initial values.
    pub open spec fn is_initial(self) -> bool {
        &&& self.gecko.list_style_type == consts::NS_STYLE_LIST_STYLE_DISC
    }

    /// The initial list struct: `list-style-type: disc`.
    pub fn initial() -> (r: Arc<GeckoList>)
        ensures
            r.is_initial(),
    {
        Arc::new(GeckoList { gecko: NsStyleList { list_style_type: consts::NS_STYLE_LIST_STYLE_DISC } })
    }

    /// The Gecko struct.
    pub fn get_gecko(&self) -> (r: &NsStyleList)
        ensures
            *r == self.gecko,
    {
        &self.gecko
    }

    /// Sets `list-style-type`.
    pub fn set_list_style_type(&mut self, v: ListStyleType)
        ensures
            final(self).gecko.list_style_type == spec_list_style_type_to_gecko(v),
    {
        self.gecko.list_style_type = v.to_gecko();
    }

    /// Copies `list-style-type` of another struct.
    pub fn copy_list_style_type_from(&mut self, other: &Self)
        ensures
            final(self).gecko.list_style_type == other.gecko.list_style_type,
    {
        self.gecko.list_style_type = other.gecko.list_style_type;
    }
}

impl GeckoList {
    /// Whether two structs hold the same values.
    pub open spec fn same_as(self, other: Self) -> bool {
        self.gecko == other.gecko
    }
}

impl Clone for GeckoList {
    fn clone(&self) -> (r: Self)
        ensures
            r.same_as(*self),
    {
        GeckoList { gecko: self.gecko }
    }
}

} // verus!
