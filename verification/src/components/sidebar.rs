//! The sidebar's one decision: which entry is highlighted.

use vstd::prelude::*;

verus! {

/// The sidebar entry a page belongs to.
#[derive(Debug, Clone, Copy, PartialEq, Eq, Structural)]
pub enum SidebarActive {
    Dashboard,
    Users,
    Gallery,
}

/// The CSS classes of one sidebar link: `nav-link`, and `active` on the
/// entry the open page belongs to.
pub open spec fn spec_li_class(active: Option<SidebarActive>, entry: SidebarActive) -> Seq<char> {
    if active == Some(entry) {
        "nav-link active"@
    } else {
        "nav-link"@
    }
}

pub fn li_class(active: Option<SidebarActive>, entry: SidebarActive) -> (r: String)
    ensures
        r@ == spec_li_class(active, entry),
{
    let is_active = match active {
        Some(a) => a == entry,
        None => false,
    };
    if is_active {
        String::from_str("nav-link active")
    } else {
        String::from_str("nav-link")
    }
}

} // verus!
