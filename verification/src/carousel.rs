//! The navigation state of a carousel: which item is active and which the
//! previous and next controls lead to.

use vstd::prelude::*;

verus! {

/// The item a carousel shows and how many it can show.
pub struct Carousel {
    item_count: usize,
    items: usize,
    active_index: usize,
}

impl Carousel {
    /// The number of items the carousel was made for.
    pub closed spec fn item_count_view(&self) -> nat {
        self.item_count as nat
    }

    /// The number of child items added to the carousel.
    pub closed spec fn items_view(&self) -> nat {
        self.items as nat
    }

    /// The active item.
    pub closed spec fn active_view(&self) -> nat {
        self.active_index as nat
    }

    /// The active item lies within the item count (or is 0 when there is none).
    pub open spec fn wf(&self) -> bool {
        self.active_view() < self.item_count_view() || self.active_view() == 0
    }

    /// The number of items the carousel pages through: the larger of its
    /// item count and its number of child items.
    pub open spec fn total_view(&self) -> nat {
        if self.item_count_view() >= self.items_view() {
            self.item_count_view()
        } else {
            self.items_view()
        }
    }

    /// The item that asking for item `index` makes active: `index` wrapped
    /// around the item count, or item 0 when there are no items.
    pub open spec fn wrapped(&self, index: nat) -> nat {
        if self.item_count_view() > 0 {
            index % self.item_count_view()
        } else {
            0
        }
    }

    /// The item before `active`, wrapping from the first to the last.
    pub open spec fn previous_of(&self, active: nat) -> nat {
        if active == 0 {
            if self.total_view() == 0 {
                0
            } else {
                (self.total_view() - 1) as nat
            }
        } else {
            (active - 1) as nat
        }
    }

    /// The item after `active`, wrapping from the last to the first (item 0
    /// when there are none).
    pub open spec fn next_of(&self, active: nat) -> nat {
        if self.total_view() > 0 {
            (active + 1) % self.total_view()
        } else {
            0
        }
    }

    /// A carousel of `item_count` items, on the first one, with no child items yet.
    pub fn new(item_count: usize) -> (carousel: Self)
        ensures
            carousel.wf(),
            carousel.item_count_view() == item_count,
            carousel.items_view() == 0,
            carousel.active_view() == 0,
    {
        Carousel { item_count, items: 0, active_index: 0 }
    }

    /// This carousel on item `index`, wrapped around the item count (item 0
    /// when there are no items).
    pub fn active_index(self, index: usize) -> (carousel: Self)
        ensures
            carousel.wf(),
            carousel.item_count_view() == self.item_count_view(),
            carousel.items_view() == self.items_view(),
            carousel.active_view() == self.wrapped(index as nat),
    {
        let mut carousel = self;
        carousel.active_index = if carousel.item_count > 0 {
            index % carousel.item_count
        } else {
            0
        };
        carousel
    }

    /// This carousel with one more child item.
    pub fn item(self) -> (carousel: Self)
        requires
            self.items_view() < usize::MAX,
        ensures
            carousel.wf() == self.wf(),
            carousel.item_count_view() == self.item_count_view(),
            carousel.items_view() == self.items_view() + 1,
            carousel.active_view() == self.active_view(),
    {
        let mut carousel = self;
        carousel.items = carousel.items + 1;
        carousel
    }

    /// This carousel with `count` more child items.
    pub fn items(self, count: usize) -> (carousel: Self)
        requires
            self.items_view() + count <= usize::MAX,
        ensures
            carousel.wf() == self.wf(),
            carousel.item_count_view() == self.item_count_view(),
            carousel.items_view() == self.items_view() + count,
            carousel.active_view() == self.active_view(),
    {
        let mut carousel = self;
        carousel.items = carousel.items + count;
        carousel
    }

    /// The active item.
    pub fn current_index(&self) -> (index: usize)
        ensures
            index == self.active_view(),
    {
        self.active_index
    }

    /// The number of items the carousel pages through.
    pub fn total(&self) -> (total: usize)
        ensures
            total == self.total_view(),
    {
        if self.item_count >= self.items {
            self.item_count
        } else {
            self.items
        }
    }

    /// The item the previous control leads to: the one before, wrapping
    /// from the first to the last.
    pub fn previous_index(&self) -> (index: usize)
        ensures
            index == self.previous_of(self.active_view()),
    {
        let total = self.total();
        if self.active_index == 0 {
            if total == 0 {
                0
            } else {
                total - 1
            }
        } else {
            self.active_index - 1
        }
    }

    /// The item the next control leads to: the one after, wrapping from
    /// the last to the first (item 0 when there are none).
    pub fn next_index(&self) -> (index: usize)
        requires
            self.wf(),
        ensures
            index == self.next_of(self.active_view()),
    {
        let total = self.total();
        if total > 0 {
            (self.active_index + 1) % total
        } else {
            0
        }
    }

    /// Whether the indicator dot of `index` is the active one.
    pub fn is_active(&self, index: usize) -> (active: bool)
        ensures
            active == (index == self.active_view()),
    {
        index == self.active_index
    }
}

/// The previous and next controls of a carousel with something to show lead
/// to items it has.
pub proof fn law_navigation_stays_in_range(carousel: Carousel)
    requires
        carousel.wf(),
        carousel.total_view() > 0,
    ensures
        carousel.previous_of(carousel.active_view()) < carousel.total_view(),
        carousel.next_of(carousel.active_view()) < carousel.total_view(),
{
}

/// When the carousel pages through exactly its item count, going to the
/// next item and then to the previous one (or the other way round) comes
/// back to the active item.
pub proof fn law_previous_undoes_next(carousel: Carousel)
    requires
        carousel.wf(),
        carousel.item_count_view() > 0,
        carousel.items_view() <= carousel.item_count_view(),
    ensures
        carousel.previous_of(carousel.wrapped(carousel.next_of(carousel.active_view())))
            == carousel.active_view(),
        carousel.next_of(carousel.wrapped(carousel.previous_of(carousel.active_view())))
            == carousel.active_view(),
{
    let n = carousel.item_count_view();
    let a = carousel.active_view();
    assert(carousel.total_view() == n);
    if a + 1 < n {
        assert((a + 1) % n == a + 1) by (nonlinear_arith)
            requires
                a + 1 < n,
        ;
    } else {
        assert((a + 1) % n == 0) by (nonlinear_arith)
            requires
                a + 1 == n,
        ;
    }
    let p = carousel.previous_of(a);
    assert(p < n);
    assert(p % n == p) by (nonlinear_arith)
        requires
            p < n,
    ;
    if p + 1 < n {
        assert((p + 1) % n == p + 1) by (nonlinear_arith)
            requires
                p + 1 < n,
        ;
    } else {
        assert((p + 1) % n == 0) by (nonlinear_arith)
            requires
                p + 1 == n,
        ;
    }
    let m = carousel.next_of(a);
    assert(m < n);
    assert(m % n == m) by (nonlinear_arith)
        requires
            m < n,
    ;
}

} // verus!
