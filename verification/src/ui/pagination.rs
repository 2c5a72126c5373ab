//! The page links of a paginated listing.
use vstd::prelude::*;

verus! {

/// The pages `s` to `e`, or nothing when `s > e`.
pub open spec fn page_range(s: int, e: int) -> Seq<u64> {
    if s <= e {
        Seq::new((e - s + 1) as nat, |i: int| (s + i) as u64)
    } else {
        Seq::empty()
    }
}

/// The first page of the window around `current`: two before it, but not
/// below page 2.
pub open spec fn window_start(current: u64) -> int {
    if current >= 4 {
        current - 2
    } else {
        2
    }
}

/// The last page of the window around `current`: two after it, but not past
/// the page before the last.
pub open spec fn window_end(current: u64, total: u64) -> int {
    if current + 2 <= total - 1 {
        current + 2
    } else {
        total - 1
    }
}

/// The page links for page `current` of `total` pages; 0 stands for an
/// ellipsis. With no pages there is a link to page 1; with up to seven, one to
/// each page; with more, links to the first and the last page and to the pages
/// within two of the current one, with an ellipsis for each gap.
pub open spec fn page_numbers(current: u64, total: u64) -> Seq<u64> {
    if total == 0 {
        seq![1u64]
    } else if total <= 7 {
        Seq::new(total as nat, |i: int| (i + 1) as u64)
    } else {
        let s = window_start(current);
        let e = window_end(current, total);
        let lead: Seq<u64> = if s > 2 {
            seq![0u64]
        } else {
            Seq::empty()
        };
        let trail: Seq<u64> = if e < total - 1 {
            seq![0u64]
        } else {
            Seq::empty()
        };
        seq![1u64] + lead + page_range(s, e) + trail + seq![total]
    }
}

/// The page links for page `current` of `total` pages (see `page_numbers`).
pub fn build_page_numbers(current: u64, total: u64) -> (r: Vec<u64>)
    requires
        current + 2 <= u64::MAX,
    ensures
        r@ == page_numbers(current, total),
{
    if total == 0 {
        let mut one: Vec<u64> = Vec::new();
        one.push(1);
        assert(one@ =~= seq![1u64]);
        return one;
    }
    let mut pages: Vec<u64> = Vec::new();
    if total <= 7 {
        let mut i: u64 = 1;
        while i <= total
            invariant
                1 <= i <= total + 1,
                total <= 7,
                pages@ =~= Seq::new((i - 1) as nat, |k: int| (k + 1) as u64),
            decreases total + 1 - i,
        {
            pages.push(i);
            i = i + 1;
        }
        assert(pages@ =~= page_numbers(current, total));
        return pages;
    }
    pages.push(1);
    let sat = if current >= 2 {
        current - 2
    } else {
        0
    };
    let range_start = if sat > 2 {
        sat
    } else {
        2
    };
    let range_end = if current + 2 < total - 1 {
        current + 2
    } else {
        total - 1
    };
    assert(range_start == window_start(current));
    assert(range_end == window_end(current, total));
    let ghost lead: Seq<u64> = if range_start > 2 {
        seq![0u64]
    } else {
        Seq::empty()
    };
    if range_start > 2 {
        pages.push(0);
    }
    assert(pages@ =~= seq![1u64] + lead);
    let mut i: u64 = range_start;
    while i <= range_end
        invariant
            range_start <= i,
            i <= range_end + 1 || i == range_start,
            range_end < total,
            pages@ =~= seq![1u64] + lead + page_range(range_start as int, i - 1),
        decreases range_end + 1 - i,
    {
        pages.push(i);
        assert(page_range(range_start as int, i as int) =~= page_range(
            range_start as int,
            i - 1,
        ).push(i));
        i = i + 1;
    }
    assert(page_range(range_start as int, i - 1) =~= page_range(
        range_start as int,
        range_end as int,
    ));
    if range_end < total - 1 {
        pages.push(0);
    }
    pages.push(total);
    assert(pages@ =~= page_numbers(current, total));
    pages
}

proof fn lemma_page_range_facts(s: int, e: int)
    ensures
        page_range(s, e).len() == if s <= e {
            e - s + 1
        } else {
            0
        },
        forall|i: int| 0 <= i < page_range(s, e).len() ==> #[trigger] page_range(s, e)[i] == (s
            + i) as u64,
{
}

/// The page links start with page 1, end with the last page, hold at most
/// nine entries, and every entry is an ellipsis or a page that exists; the
/// pages among them are in increasing order, and the current page, when it
/// exists, is among them.
pub proof fn lemma_page_numbers_shape(current: u64, total: u64)
    requires
        total > 0,
        current + 2 <= u64::MAX,
    ensures
        page_numbers(current, total).len() <= 9,
        page_numbers(current, total)[0] == 1,
        page_numbers(current, total).last() == total,
        forall|i: int|
            0 <= i < page_numbers(current, total).len() ==> {
                let p = #[trigger] page_numbers(current, total)[i];
                p == 0 || (1 <= p && p <= total)
            },
        forall|i: int, j: int|
            0 <= i < j < page_numbers(current, total).len() && page_numbers(current, total)[i] != 0
                && page_numbers(current, total)[j] != 0 ==> #[trigger] page_numbers(
                current,
                total,
            )[i] < #[trigger] page_numbers(current, total)[j],
        1 <= current <= total ==> page_numbers(current, total).contains(current),
{
    let r = page_numbers(current, total);
    if total <= 7 {
        if 1 <= current <= total {
            assert(r[current - 1] == current);
        }
    } else {
        let s = window_start(current);
        let e = window_end(current, total);
        lemma_page_range_facts(s, e);
        let lead: Seq<u64> = if s > 2 {
            seq![0u64]
        } else {
            Seq::empty()
        };
        let trail: Seq<u64> = if e < total - 1 {
            seq![0u64]
        } else {
            Seq::empty()
        };
        let mid = page_range(s, e);
        let a = seq![1u64] + lead;
        let b = a + mid;
        let c = b + trail;
        assert(r == c + seq![total]);
        let la = a.len() as int;
        let lb = b.len() as int;
        let lc = c.len() as int;
        assert forall|i: int| 0 <= i < r.len() implies {
            let p = #[trigger] r[i];
            &&& (i == 0 ==> p == 1)
            &&& (0 < i < la ==> p == 0)
            &&& (la <= i < lb ==> p == (s + (i - la)) as u64 && 2 <= s + (i - la) <= total - 1)
            &&& (lb <= i < lc ==> p == 0)
            &&& (i == lc ==> p == total)
        } by {
            if i < lc {
                assert(r[i] == c[i]);
                if i < lb {
                    assert(c[i] == b[i]);
                    if i < la {
                        assert(b[i] == a[i]);
                    } else {
                        assert(b[i] == mid[i - la]);
                    }
                } else {
                    assert(c[i] == trail[i - lb]);
                }
            }
        }
        if 1 <= current <= total {
            if current == 1 {
                assert(r[0] == current);
            } else if current == total {
                assert(r[lc] == current);
            } else {
                let k = la + (current - s);
                assert(r[k] == current);
            }
        }
    }
}

/// Where each entry of the page links stands when there are more than seven
/// pages: page 1, an ellipsis when the window starts after page 2, the window,
/// an ellipsis when it ends before the page before the last, the last page.
proof fn lemma_page_numbers_entries(current: u64, total: u64)
    requires
        total > 7,
        current + 2 <= u64::MAX,
    ensures
        ({
            let r = page_numbers(current, total);
            let s = window_start(current);
            let e = window_end(current, total);
            let la: int = if s > 2 {
                2
            } else {
                1
            };
            let lb: int = if s <= e {
                la + e - s + 1
            } else {
                la
            };
            let lc: int = if e < total - 1 {
                lb + 1
            } else {
                lb
            };
            &&& 2 <= s
            &&& e <= total - 1
            &&& current - 2 <= s
            &&& e <= current + 2
            &&& (s > e ==> s > 2 && e == total - 1)
            &&& r.len() == lc + 1
            &&& forall|i: int|
                0 <= i < r.len() ==> {
                    let p = #[trigger] r[i];
                    &&& (i == 0 ==> p == 1)
                    &&& (0 < i < la ==> p == 0)
                    &&& (la <= i < lb ==> p == s + (i - la) && 2 <= s + (i - la) <= total - 1)
                    &&& (lb <= i < lc ==> p == 0)
                    &&& (i == lc ==> p == total)
                }
        }),
{
    let r = page_numbers(current, total);
    let s = window_start(current);
    let e = window_end(current, total);
    lemma_page_range_facts(s, e);
    let lead: Seq<u64> = if s > 2 {
        seq![0u64]
    } else {
        Seq::empty()
    };
    let trail: Seq<u64> = if e < total - 1 {
        seq![0u64]
    } else {
        Seq::empty()
    };
    let mid = page_range(s, e);
    let a = seq![1u64] + lead;
    let b = a + mid;
    let c = b + trail;
    assert(r == c + seq![total]);
    let la = a.len() as int;
    let lb = b.len() as int;
    let lc = c.len() as int;
    assert forall|i: int| 0 <= i < r.len() implies {
        let p = #[trigger] r[i];
        &&& (i == 0 ==> p == 1)
        &&& (0 < i < la ==> p == 0)
        &&& (la <= i < lb ==> p == s + (i - la) && 2 <= s + (i - la) <= total - 1)
        &&& (lb <= i < lc ==> p == 0)
        &&& (i == lc ==> p == total)
    } by {
        if i < lc {
            assert(r[i] == c[i]);
            if i < lb {
                assert(c[i] == b[i]);
                if i < la {
                    assert(b[i] == a[i]);
                } else {
                    assert(b[i] == mid[i - la]);
                }
            } else {
                assert(c[i] == trail[i - lb]);
            }
        }
    }
}

/// No page is skipped silently: two neighbouring page links are consecutive
/// pages, and an ellipsis stands only between two page links that are more
/// than one page apart. The first and the last page and every page within two
/// of the current one are shown; with more than seven pages no other page is.
pub proof fn lemma_page_numbers_gaps(current: u64, total: u64)
    requires
        total > 0,
        current + 2 <= u64::MAX,
    ensures
        forall|i: int|
            0 <= i && i + 1 < page_numbers(current, total).len() && #[trigger] page_numbers(
                current,
                total,
            )[i] != 0 && page_numbers(current, total)[i + 1] != 0 ==> page_numbers(
                current,
                total,
            )[i + 1] == page_numbers(current, total)[i] + 1,
        forall|i: int|
            0 <= i < page_numbers(current, total).len() && #[trigger] page_numbers(
                current,
                total,
            )[i] == 0 ==> {
                &&& 0 < i < page_numbers(current, total).len() - 1
                &&& page_numbers(current, total)[i - 1] != 0
                &&& page_numbers(current, total)[i + 1] != 0
                &&& page_numbers(current, total)[i + 1] > page_numbers(current, total)[i - 1] + 1
            },
        forall|p: u64|
            1 <= p <= total && (p == 1 || p == total || (current - 2 <= p && p <= current + 2))
                ==> #[trigger] page_numbers(current, total).contains(p),
        total > 7 ==> forall|i: int|
            0 <= i < page_numbers(current, total).len() && #[trigger] page_numbers(
                current,
                total,
            )[i] != 0 ==> {
                let p = page_numbers(current, total)[i];
                p == 1 || p == total || (current - 2 <= p && p <= current + 2)
            },
{
    let r = page_numbers(current, total);
    if total <= 7 {
        assert forall|p: u64|
            1 <= p <= total && (p == 1 || p == total || (current - 2 <= p && p <= current + 2))
                implies #[trigger] r.contains(p) by {
            assert(r[p - 1] == p);
        }
    } else {
        lemma_page_numbers_entries(current, total);
        let s = window_start(current);
        let e = window_end(current, total);
        let la: int = if s > 2 {
            2
        } else {
            1
        };
        let lb: int = if s <= e {
            la + e - s + 1
        } else {
            la
        };
        let lc: int = if e < total - 1 {
            lb + 1
        } else {
            lb
        };
        assert forall|i: int|
            0 <= i && i + 1 < r.len() && #[trigger] r[i] != 0 && r[i + 1] != 0 implies r[i + 1]
            == r[i] + 1 by {
            let p = r[i];
            let q = r[i + 1];
        }
        assert forall|i: int| 0 <= i < r.len() && #[trigger] r[i] == 0 implies {
            &&& 0 < i < r.len() - 1
            &&& r[i - 1] != 0
            &&& r[i + 1] != 0
            &&& r[i + 1] > r[i - 1] + 1
        } by {
            let p = r[i - 1];
            let q = r[i + 1];
        }
        assert forall|p: u64|
            1 <= p <= total && (p == 1 || p == total || (current - 2 <= p && p <= current + 2))
                implies #[trigger] r.contains(p) by {
            if p == 1 {
                assert(r[0] == p);
            } else if p == total {
                assert(r[lc] == p);
            } else {
                assert(r[la + (p - s)] == p);
            }
        }
    }
}

/// With no pages there is one link, to page 1; with one to seven pages every
/// page is linked, in order, and no ellipsis is shown.
pub proof fn lemma_few_pages_all_shown(current: u64, total: u64)
    requires
        total <= 7,
    ensures
        total == 0 ==> page_numbers(current, total) == seq![1u64],
        total > 0 ==> page_numbers(current, total).len() == total,
        total > 0 ==> forall|i: int|
            0 <= i < total ==> #[trigger] page_numbers(current, total)[i] == i + 1,
{
}

} // verus!
