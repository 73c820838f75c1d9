//! The pagination bar: which page buttons appear, in which order, where the
//! ellipses go, and what each button links to.

use vstd::prelude::*;

use crate::numeric::spec_dec;
use crate::numeric::format_u32;

verus! {

/// One slot of the pagination bar.
#[derive(Debug, Clone, Copy, PartialEq, Eq, Structural)]
pub enum PageItemKind {
    Previous,
    Next,
    Regular(u32),
    Ellipsis,
}

/// What a valid pagination configuration requires: the current page exists,
/// at least three page numbers are displayed, and the edge runs fit.
pub open spec fn spec_pagination_valid(
    total_pages: u32,
    current_page: u32,
    displayed_pages: u32,
    edges: u32,
) -> bool {
    &&& total_pages >= 1
    &&& current_page < total_pages
    &&& displayed_pages >= 3
    &&& edges <= total_pages
}

/// The inclusive range of page indexes shown around the current page: as many
/// as fit, pushed inward at either end so the count stays `min(displayed,
/// total)`.
pub open spec fn spec_interval(total_pages: u32, current_page: u32, displayed_pages: u32) -> (
    int,
    int,
) {
    let select: int = if displayed_pages < total_pages {
        displayed_pages as int
    } else {
        total_pages as int
    };
    let lhs = select / 2;
    let rhs = (select - 1) / 2;
    let last_page = total_pages - 1;
    if current_page < lhs {
        let e0 = lhs + rhs;
        (0int, if e0 > last_page {
            last_page
        } else {
            e0
        })
    } else if current_page + rhs > last_page {
        let lhs2 = lhs + rhs - (last_page - current_page);
        (
            if lhs2 > current_page {
                0int
            } else {
                current_page - lhs2
            },
            last_page,
        )
    } else {
        (current_page - lhs, current_page + rhs)
    }
}

proof fn lemma_interval_props(total_pages: u32, current_page: u32, displayed_pages: u32)
    requires
        total_pages >= 1,
        current_page < total_pages,
        displayed_pages >= 3,
    ensures
        ({
            let (start, end) = spec_interval(total_pages, current_page, displayed_pages);
            let select: int = if displayed_pages < total_pages {
                displayed_pages as int
            } else {
                total_pages as int
            };
            &&& 0 <= start <= current_page <= end < total_pages
            &&& end + 1 - start == select
        }),
{
    let select: int = if displayed_pages < total_pages {
        displayed_pages as int
    } else {
        total_pages as int
    };
    assert(select / 2 + (select - 1) / 2 + 1 == select) by (nonlinear_arith)
        requires
            select >= 1,
    ;
}

/// The interval of the pagination bar, as a pair `(start, end)`, inclusive.
/// It always holds the current page and exactly `min(displayed_pages,
/// total_pages)` entries.
pub fn interval(total_pages: u32, current_page: u32, displayed_pages: u32) -> (r: (u32, u32))
    requires
        total_pages >= 1,
        current_page < total_pages,
        displayed_pages >= 3,
    ensures
        (r.0 as int, r.1 as int) == spec_interval(total_pages, current_page, displayed_pages),
        r.0 <= current_page <= r.1 < total_pages,
        r.1 + 1 - r.0 == (if displayed_pages < total_pages {
            displayed_pages as int
        } else {
            total_pages as int
        }),
{
    proof {
        lemma_interval_props(total_pages, current_page, displayed_pages);
    }
    let select = if displayed_pages < total_pages {
        displayed_pages
    } else {
        total_pages
    };
    let lhs = select / 2;
    let rhs = (select - 1) / 2;
    proof {
        assert(select / 2 + (select - 1) / 2 + 1 == select) by (nonlinear_arith)
            requires
                select >= 1,
        ;
    }
    let last_page = total_pages - 1;
    if current_page < lhs {
        let e0 = lhs + rhs;
        let end = if e0 > last_page {
            last_page
        } else {
            e0
        };
        (0, end)
    } else if (current_page as u64) + (rhs as u64) > (last_page as u64) {
        let lhs2 = lhs + rhs - (last_page - current_page);
        let start = if lhs2 > current_page {
            0
        } else {
            current_page - lhs2
        };
        (start, last_page)
    } else {
        (current_page - lhs, current_page + rhs)
    }
}

/// A run of consecutive page buttons.
pub open spec fn spec_regular_run(start: int, len: int) -> Seq<PageItemKind> {
    Seq::new(
        if len >= 0 {
            len as nat
        } else {
            0
        },
        |i: int| PageItemKind::Regular((start + i) as u32),
    )
}

/// The whole bar: previous button, the first pages up to `edges`, an ellipsis
/// where pages are skipped, the interval around the current page, an ellipsis
/// again, the last pages, next button.
pub open spec fn spec_page_items(
    total_pages: u32,
    current_page: u32,
    displayed_pages: u32,
    edges: u32,
) -> Seq<PageItemKind> {
    let (start, end) = spec_interval(total_pages, current_page, displayed_pages);
    let front_len: int = if (edges as int) < start {
        edges as int
    } else {
        start
    };
    let front_ellipsis: Seq<PageItemKind> = if edges > 0 && start > edges {
        seq![PageItemKind::Ellipsis]
    } else {
        Seq::empty()
    };
    let back_ellipsis: Seq<PageItemKind> = if edges > 0 && end < total_pages - edges {
        seq![PageItemKind::Ellipsis]
    } else {
        Seq::empty()
    };
    let back_start: int = if total_pages - edges > end + 1 {
        total_pages - edges
    } else {
        end + 1
    };
    seq![PageItemKind::Previous] + spec_regular_run(0, front_len) + front_ellipsis
        + spec_regular_run(start, end + 1 - start) + back_ellipsis + spec_regular_run(
        back_start,
        total_pages - back_start,
    ) + seq![PageItemKind::Next]
}

/// The slots of the pagination bar, in display order.
pub fn page_items(total_pages: u32, current_page: u32, displayed_pages: u32, edges: u32) -> (r:
    Vec<PageItemKind>)
    requires
        spec_pagination_valid(total_pages, current_page, displayed_pages, edges),
    ensures
        r@ == spec_page_items(total_pages, current_page, displayed_pages, edges),
{
    let (start, end) = interval(total_pages, current_page, displayed_pages);
    let mut items: Vec<PageItemKind> = Vec::new();
    items.push(PageItemKind::Previous);
    let front_len = if edges < start {
        edges
    } else {
        start
    };
    proof {
        assert(items@ =~= seq![PageItemKind::Previous] + spec_regular_run(0, 0));
    }
    let mut i: u32 = 0;
    while i < front_len
        invariant
            i <= front_len,
            items@ == seq![PageItemKind::Previous] + spec_regular_run(0, i as int),
        decreases front_len - i,
    {
        items.push(PageItemKind::Regular(i));
        proof {
            assert(items@ =~= seq![PageItemKind::Previous] + spec_regular_run(0, i + 1));
        }
        i = i + 1;
    }
    let ghost prefix1 = items@;
    if edges > 0 && start > edges {
        items.push(PageItemKind::Ellipsis);
    }
    let ghost front_ellipsis: Seq<PageItemKind> = if edges > 0 && start > edges {
        seq![PageItemKind::Ellipsis]
    } else {
        Seq::empty()
    };
    proof {
        assert(items@ =~= prefix1 + front_ellipsis);
    }
    let ghost prefix2 = items@;
    let mut idx: u32 = start;
    while idx < end + 1
        invariant
            start <= idx <= end + 1,
            end < total_pages,
            items@ == prefix2 + spec_regular_run(start as int, idx - start),
        decreases end + 1 - idx,
    {
        items.push(PageItemKind::Regular(idx));
        proof {
            assert(items@ =~= prefix2 + spec_regular_run(start as int, idx + 1 - start));
        }
        idx = idx + 1;
    }
    let ghost prefix3 = items@;
    if edges > 0 && end < total_pages - edges {
        items.push(PageItemKind::Ellipsis);
    }
    let ghost back_ellipsis: Seq<PageItemKind> = if edges > 0 && end < total_pages - edges {
        seq![PageItemKind::Ellipsis]
    } else {
        Seq::empty()
    };
    proof {
        assert(items@ =~= prefix3 + back_ellipsis);
    }
    let ghost prefix4 = items@;
    let back_start = if total_pages - edges > end + 1 {
        total_pages - edges
    } else {
        end + 1
    };
    let mut b: u32 = back_start;
    while b < total_pages
        invariant
            back_start <= b <= total_pages,
            items@ == prefix4 + spec_regular_run(back_start as int, b - back_start),
        decreases total_pages - b,
    {
        items.push(PageItemKind::Regular(b));
        proof {
            assert(items@ =~= prefix4 + spec_regular_run(back_start as int, b + 1 - back_start));
        }
        b = b + 1;
    }
    items.push(PageItemKind::Next);
    proof {
        assert(items@ =~= spec_page_items(total_pages, current_page, displayed_pages, edges));
    }
    items
}

/// The bar always holds the current page's own button, and every page button
/// it holds names an existing page.
pub proof fn lemma_page_items_sound(
    total_pages: u32,
    current_page: u32,
    displayed_pages: u32,
    edges: u32,
)
    requires
        spec_pagination_valid(total_pages, current_page, displayed_pages, edges),
    ensures
        spec_page_items(total_pages, current_page, displayed_pages, edges).contains(
            PageItemKind::Regular(current_page),
        ),
        forall|i: int|
            0 <= i < spec_page_items(total_pages, current_page, displayed_pages, edges).len()
                ==> (#[trigger] spec_page_items(total_pages, current_page, displayed_pages, edges)[i]
                matches PageItemKind::Regular(p) ==> p < total_pages),
{
    lemma_interval_props(total_pages, current_page, displayed_pages);
    let items = spec_page_items(total_pages, current_page, displayed_pages, edges);
    let (start, end) = spec_interval(total_pages, current_page, displayed_pages);
    let front_len: int = if (edges as int) < start {
        edges as int
    } else {
        start
    };
    let front_ellipsis: Seq<PageItemKind> = if edges > 0 && start > edges {
        seq![PageItemKind::Ellipsis]
    } else {
        Seq::empty()
    };
    let back_ellipsis: Seq<PageItemKind> = if edges > 0 && end < total_pages - edges {
        seq![PageItemKind::Ellipsis]
    } else {
        Seq::empty()
    };
    let back_start: int = if total_pages - edges > end + 1 {
        total_pages - edges
    } else {
        end + 1
    };
    let middle = spec_regular_run(start, end + 1 - start);
    let pos = 1 + front_len + front_ellipsis.len() + (current_page - start);
    assert(middle[current_page - start] == PageItemKind::Regular(current_page));
    assert(items[pos] == PageItemKind::Regular(current_page));
    assert(items.contains(PageItemKind::Regular(current_page))) by {
        assert(items[pos] == PageItemKind::Regular(current_page));
    }
    assert forall|i: int|
        0 <= i < items.len() implies (#[trigger] items[i] matches PageItemKind::Regular(p) ==> p
        < total_pages) by {
        let front = spec_regular_run(0, front_len);
        let back = spec_regular_run(back_start, total_pages - back_start);
        let b0 = 1 + front.len();
        let b1 = b0 + front_ellipsis.len();
        let b2 = b1 + middle.len();
        let b3 = b2 + back_ellipsis.len();
        let b4 = b3 + back.len();
        if 1 <= i < b0 {
            assert(items[i] == front[i - 1]);
        } else if b1 <= i < b2 {
            assert(items[i] == middle[i - b1]);
        } else if b3 <= i < b4 {
            assert(items[i] == back[i - b3]);
        }
    }
}

/// The page a slot links to: the neighbouring page for the arrows (when one
/// exists), the page itself for a number, nothing for an ellipsis.
pub open spec fn spec_item_link(kind: PageItemKind, total_pages: u32, current_page: u32) -> Option<
    u32,
> {
    match kind {
        PageItemKind::Previous => if current_page > 0 {
            Some((current_page - 1) as u32)
        } else {
            None
        },
        PageItemKind::Next => if current_page >= total_pages - 1 {
            None
        } else {
            Some((current_page + 1) as u32)
        },
        PageItemKind::Regular(idx) => Some(idx),
        PageItemKind::Ellipsis => None,
    }
}

pub fn item_link(kind: PageItemKind, total_pages: u32, current_page: u32) -> (r: Option<u32>)
    requires
        total_pages >= 1,
        current_page < total_pages,
    ensures
        r == spec_item_link(kind, total_pages, current_page),
{
    match kind {
        PageItemKind::Previous => {
            if current_page > 0 {
                Some(current_page - 1)
            } else {
                None
            }
        },
        PageItemKind::Next => {
            let last_page = total_pages - 1;
            if current_page >= last_page {
                None
            } else {
                Some(current_page + 1)
            }
        },
        PageItemKind::Regular(idx) => Some(idx),
        PageItemKind::Ellipsis => None,
    }
}

/// Whether a slot is highlighted: only the current page's own button.
pub fn item_active(kind: PageItemKind, current_page: u32) -> (r: bool)
    ensures
        r == (kind matches PageItemKind::Regular(idx) && idx == current_page),
{
    match kind {
        PageItemKind::Regular(idx) => idx == current_page,
        _ => false,
    }
}

/// The label of a slot; page numbers are shown one-based.
pub open spec fn spec_item_label(kind: PageItemKind) -> Seq<char> {
    match kind {
        PageItemKind::Previous => "\u{ab}"@,
        PageItemKind::Next => "\u{bb}"@,
        PageItemKind::Regular(idx) => spec_dec((idx + 1) as nat),
        PageItemKind::Ellipsis => "\u{2026}"@,
    }
}

pub fn item_label(kind: PageItemKind) -> (r: String)
    requires
        kind matches PageItemKind::Regular(idx) ==> idx < u32::MAX,
    ensures
        r@ == spec_item_label(kind),
{
    match kind {
        PageItemKind::Previous => String::from_str("\u{ab}"),
        PageItemKind::Next => String::from_str("\u{bb}"),
        PageItemKind::Regular(idx) => format_u32(idx + 1),
        PageItemKind::Ellipsis => String::from_str("\u{2026}"),
    }
}

/// The CSS classes of a slot: `page-item`, with `active` on the current
/// page's button and `disabled` where there is nothing to link to.
pub open spec fn spec_item_classes(active: bool, enabled: bool) -> Seq<char> {
    if active && !enabled {
        "page-item active disabled"@
    } else if active {
        "page-item active"@
    } else if !enabled {
        "page-item disabled"@
    } else {
        "page-item"@
    }
}

pub fn item_classes(active: bool, enabled: bool) -> (r: String)
    ensures
        r@ == spec_item_classes(active, enabled),
{
    if active && !enabled {
        String::from_str("page-item active disabled")
    } else if active {
        String::from_str("page-item active")
    } else if !enabled {
        String::from_str("page-item disabled")
    } else {
        String::from_str("page-item")
    }
}

} // verus!
