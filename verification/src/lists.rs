//! The list pages of the web interface: beacons, floor plans and users,
//! the lists sorted by name, and what each page asks of the server.

use vstd::prelude::*;
use crate::model::{Beacon, BeaconRequest, FloorPlan, TrackedUser};
use crate::root::Page;
use crate::text::{lex_le, lemma_lex_total, lemma_lex_transitive, str_le};
use crate::user_message::{UserMessage, failure_text};

verus! {

broadcast use {vstd::seq_lib::group_to_multiset_ensures, vstd::multiset::group_multiset_axioms};

/// Something listed by its name.
pub trait Named {
    spec fn name_view(&self) -> Seq<char>;

    fn name(&self) -> (r: &str)
        ensures
            r@ == self.name_view(),
    ;
}

impl<S> Named for FloorPlan<S> {
    open spec fn name_view(&self) -> Seq<char> {
        self.name@
    }

    fn name(&self) -> (r: &str) {
        self.name.as_str()
    }
}

impl<C> Named for Beacon<C> {
    open spec fn name_view(&self) -> Seq<char> {
        self.name@
    }

    fn name(&self) -> (r: &str) {
        self.name.as_str()
    }
}

/// A beacon listed with the floor plan it is on, by the beacon's name.
impl<C, S> Named for (Beacon<C>, Option<FloorPlan<S>>) {
    open spec fn name_view(&self) -> Seq<char> {
        self.0.name@
    }

    fn name(&self) -> (r: &str) {
        self.0.name.as_str()
    }
}

/// The items are in the order of their names.
pub open spec fn sorted_by_name<T: Named>(s: Seq<T>) -> bool {
    forall|i: int, j: int|
        0 <= i < j < s.len() ==> lex_le(#[trigger] s[i].name_view(), #[trigger] s[j].name_view())
}

/// Putting `x` where everything before comes before or with it, and the
/// next item not before it, keeps a sorted sequence sorted.
proof fn lemma_insert_sorted<T: Named>(s: Seq<T>, j: int, x: T)
    requires
        sorted_by_name(s),
        0 <= j <= s.len(),
        forall|k: int| 0 <= k < j ==> lex_le(#[trigger] s[k].name_view(), x.name_view()),
        j < s.len() ==> lex_le(x.name_view(), s[j].name_view()),
    ensures
        sorted_by_name(s.insert(j, x)),
{
    let t = s.insert(j, x);
    assert forall|a: int, b: int| 0 <= a < b < t.len() implies lex_le(
        #[trigger] t[a].name_view(),
        #[trigger] t[b].name_view(),
    ) by {
        if a < j && b < j {
            assert(lex_le(s[a].name_view(), s[b].name_view()));
        } else if a < j && b == j {
            assert(lex_le(s[a].name_view(), x.name_view()));
        } else if a < j {
            assert(lex_le(s[a].name_view(), s[b - 1].name_view()));
        } else if a == j {
            if b - 1 > j {
                assert(lex_le(s[j].name_view(), s[b - 1].name_view()));
                lemma_lex_transitive(x.name_view(), s[j].name_view(), s[b - 1].name_view());
            }
        } else {
            assert(lex_le(s[a - 1].name_view(), s[b - 1].name_view()));
        }
    }
}

/// The items sorted by name; items of the same name keep no particular
/// order among themselves.
pub fn sort_by_name<T: Named>(items: Vec<T>) -> (r: Vec<T>)
    ensures
        r@.to_multiset() == items@.to_multiset(),
        sorted_by_name(r@),
{
    let ghost all = items@;
    let mut out: Vec<T> = Vec::new();
    let mut rest = items;
    assert(out@.to_multiset() =~= vstd::multiset::Multiset::<T>::empty());
    assert(out@.to_multiset().add(rest@.to_multiset()) =~= all.to_multiset());
    while rest.len() > 0
        invariant
            out@.to_multiset().add(rest@.to_multiset()) == all.to_multiset(),
            sorted_by_name(out@),
        decreases rest.len(),
    {
        let ghost before = rest@;
        let x = rest.remove(0);
        proof {
            vstd::seq_lib::to_multiset_remove(before, 0);
            assert(before.remove(0) =~= rest@);
            assert(before.to_multiset().contains(x));
        }
        let mut j: usize = 0;
        let mut found = false;
        while !found && j < out.len()
            invariant
                j <= out.len(),
                sorted_by_name(out@),
                forall|k: int| 0 <= k < j ==> lex_le(#[trigger] out@[k].name_view(), x.name_view()),
                found ==> j < out.len() && !lex_le(out@[j as int].name_view(), x.name_view()),
            decreases out.len() - j + (if found { 0int } else { 1int }),
        {
            if str_le(out[j].name(), x.name()) {
                j = j + 1;
            } else {
                found = true;
            }
        }
        proof {
            if j < out.len() {
                lemma_lex_total(out@[j as int].name_view(), x.name_view());
            }
            lemma_insert_sorted(out@, j as int, x);
        }
        let ghost prev = out@;
        out.insert(j, x);
        proof {
            vstd::seq_lib::to_multiset_insert(prev, j as int, x);
            assert(out@.to_multiset().add(rest@.to_multiset()) =~= all.to_multiset());
        }
    }
    out
}

} // verus!
