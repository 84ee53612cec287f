use vstd::prelude::*;

use vstd::multiset::Multiset;

use crate::pubkey::Pubkey;

verus! {

broadcast use {vstd::multiset::group_multiset_axioms, vstd::multiset::group_multiset_properties, vstd::seq_lib::group_to_multiset_ensures};

/// `i` is the position of the first occurrence of the least value of `vals`.
pub open spec fn is_first_min_index(vals: Seq<u64>, i: int) -> bool {
    &&& 0 <= i < vals.len()
    &&& forall|j: int| 0 <= j < vals.len() ==> vals[i] <= #[trigger] vals[j]
    &&& forall|j: int| 0 <= j < i ==> vals[i] < #[trigger] vals[j]
}

/// The position of the first occurrence of the least value of `vals`.
pub open spec fn first_min_index(vals: Seq<u64>) -> int {
    choose|i: int| is_first_min_index(vals, i)
}

/// The values of a leader board of capacity `cap` after a donation of `amount`:
/// while the board has room the donation is appended; once it is full, the
/// donation replaces the first occurrence of the least value if it is larger
/// (and goes to the end of the board); otherwise the board is unchanged.
pub open spec fn board_values(vals: Seq<u64>, cap: nat, amount: u64) -> Seq<u64> {
    if vals.len() < cap {
        vals.push(amount)
    } else if amount > vals[first_min_index(vals)] {
        vals.remove(first_min_index(vals)).push(amount)
    } else {
        vals
    }
}

/// The addresses of a leader board after a donation of `amount` by `donator`:
/// they move in step with the values (see `board_values`).
pub open spec fn board_addresses(
    vals: Seq<u64>,
    adrs: Seq<Pubkey>,
    cap: nat,
    amount: u64,
    donator: Pubkey,
) -> Seq<Pubkey> {
    if vals.len() < cap {
        adrs.push(donator)
    } else if amount > vals[first_min_index(vals)] {
        adrs.remove(first_min_index(vals)).push(donator)
    } else {
        adrs
    }
}

/// A leader board of capacity `cap`: values and addresses stay paired and the
/// board never holds more than `cap` entries.
pub open spec fn board_wf(vals: Seq<u64>, adrs: Seq<Pubkey>, cap: nat) -> bool {
    &&& vals.len() == adrs.len()
    &&& vals.len() <= cap
}

/// The first position of the least value is unique.
pub proof fn lemma_first_min_index_unique(vals: Seq<u64>, i: int, j: int)
    requires
        is_first_min_index(vals, i),
        is_first_min_index(vals, j),
    ensures
        i == j,
{
    if i < j {
        assert(vals[j] < vals[i]);
    } else if j < i {
        assert(vals[i] < vals[j]);
    }
}

/// Finds the first position of the least value of a nonempty list.
fn find_first_min(vals: &Vec<u64>) -> (idx: usize)
    requires
        vals.len() > 0,
    ensures
        is_first_min_index(vals@, idx as int),
        idx as int == first_min_index(vals@),
{
    let mut idx: usize = 0;
    let mut i: usize = 1;
    while i < vals.len()
        invariant
            1 <= i <= vals.len(),
            idx < i,
            forall|j: int| 0 <= j < i ==> vals@[idx as int] <= #[trigger] vals@[j],
            forall|j: int| 0 <= j < idx ==> vals@[idx as int] < #[trigger] vals@[j],
        decreases vals.len() - i,
    {
        if vals[i] < vals[idx] {
            idx = i;
        }
        i = i + 1;
    }
    proof {
        assert(is_first_min_index(vals@, idx as int));
        lemma_first_min_index_unique(vals@, idx as int, first_min_index(vals@));
    }
    idx
}

/// Records a donation of `amount` by `donator` on a leader board of capacity
/// `cap` whose values and addresses are `vals` and `adrs`.
pub fn track_top_donation(
    vals: &mut Vec<u64>,
    adrs: &mut Vec<Pubkey>,
    cap: usize,
    amount: u64,
    donator: Pubkey,
)
    requires
        0 < cap,
        board_wf(old(vals)@, old(adrs)@, cap as nat),
    ensures
        final(vals)@ == board_values(old(vals)@, cap as nat, amount),
        final(adrs)@ == board_addresses(old(vals)@, old(adrs)@, cap as nat, amount, donator),
        board_wf(final(vals)@, final(adrs)@, cap as nat),
{
    if vals.len() < cap {
        vals.push(amount);
        adrs.push(donator);
    } else {
        let index = find_first_min(vals);
        if amount > vals[index] {
            vals.remove(index);
            vals.push(amount);
            adrs.remove(index);
            adrs.push(donator);
        }
    }
}

/// A nonempty list has a first position of its least value.
pub proof fn lemma_first_min_index_exists(vals: Seq<u64>)
    requires
        vals.len() > 0,
    ensures
        is_first_min_index(vals, first_min_index(vals)),
    decreases vals.len(),
{
    if vals.len() == 1 {
        assert(is_first_min_index(vals, 0));
    } else {
        let init = vals.drop_last();
        lemma_first_min_index_exists(init);
        let k = first_min_index(init);
        assert(forall|j: int| 0 <= j < init.len() ==> init[j] == vals[j]);
        if vals.last() < init[k] {
            assert(is_first_min_index(vals, vals.len() - 1));
        } else {
            assert(is_first_min_index(vals, k));
        }
    }
}

/// The board `vals` of capacity `cap` holds the largest donations of
/// `history`: its values are donations of the history, it is as full as the
/// history and the capacity allow, and no donation left off the board is
/// larger than a donation on it.
pub open spec fn holds_largest(vals: Seq<u64>, history: Multiset<u64>, cap: nat) -> bool {
    &&& vals.to_multiset().subset_of(history)
    &&& vals.len() == if history.len() < cap {
        history.len()
    } else {
        cap
    }
    &&& forall|x: u64, y: u64|
        #![trigger history.count(x), vals.contains(y)]
        vals.to_multiset().count(x) < history.count(x) && vals.contains(y) ==> x <= y
}

/// The empty board holds the largest donations of an empty history.
pub proof fn lemma_empty_board_holds_largest(cap: nat)
    ensures
        holds_largest(Seq::<u64>::empty(), Multiset::<u64>::empty(), cap),
{
    let e = Seq::<u64>::empty();
    assert(e.to_multiset().len() == 0);
    assert(e.to_multiset() =~= Multiset::<u64>::empty());
}

/// Law of the leader boards: recording a donation on a board that holds the
/// largest donations of a history gives a board that holds the largest
/// donations of that history with the new donation added.
pub proof fn lemma_board_holds_largest(vals: Seq<u64>, history: Multiset<u64>, cap: nat, amount: u64)
    requires
        0 < cap,
        holds_largest(vals, history, cap),
    ensures
        holds_largest(board_values(vals, cap, amount), history.insert(amount), cap),
{
    let m = vals.to_multiset();
    let h2 = history.insert(amount);
    let new = board_values(vals, cap, amount);
    if vals.len() < cap {
        assert(vals.len() == history.len());
        assert(history.sub(m).len() == 0);
        assert forall|v: u64| m.count(v) == history.count(v) by {
            assert(history.sub(m).count(v) <= history.sub(m).len());
        }
        assert(m =~= history);
        assert(new.to_multiset() =~= h2);
        assert forall|x: u64, y: u64|
            #![trigger h2.count(x), new.contains(y)]
            new.to_multiset().count(x) < h2.count(x) && new.contains(y) implies x <= y by {}
    } else {
        lemma_first_min_index_exists(vals);
        let i = first_min_index(vals);
        let mn = vals[i];
        assert(vals.contains(mn));
        assert(m.count(mn) > 0);
        if amount > mn {
            let rest = vals.remove(i);
            assert(rest.to_multiset() =~= m.remove(mn));
            assert(new == rest.push(amount));
            assert(new.to_multiset() =~= m.remove(mn).insert(amount));
            assert forall|v: u64| new.to_multiset().count(v) <= h2.count(v) by {}
            assert forall|y: u64| #[trigger] rest.contains(y) implies vals.contains(y) by {
                let k = choose|k: int| 0 <= k < rest.len() && rest[k] == y;
                if k < i {
                    assert(vals[k] == y);
                } else {
                    assert(vals[k + 1] == y);
                }
            }
            assert forall|x: u64, y: u64|
                #![trigger h2.count(x), new.contains(y)]
                new.to_multiset().count(x) < h2.count(x) && new.contains(y) implies x <= y by {
                if x == mn {
                } else if x == amount {
                    assert(m.count(amount) < history.count(amount));
                    assert(vals.contains(mn));
                } else {
                    assert(m.count(x) < history.count(x));
                    assert(x <= mn);
                }
                if y != amount {
                    assert(rest.contains(y));
                    assert(vals.contains(y));
                    let k = choose|k: int| 0 <= k < vals.len() && vals[k] == y;
                    assert(mn <= vals[k]);
                }
            }
        } else {
            assert(new == vals);
            assert forall|x: u64, y: u64|
                #![trigger h2.count(x), new.contains(y)]
                new.to_multiset().count(x) < h2.count(x) && new.contains(y) implies x <= y by {
                let k = choose|k: int| 0 <= k < vals.len() && vals[k] == y;
                assert(mn <= vals[k]);
                if x != amount {
                    assert(m.count(x) < history.count(x));
                }
            }
        }
    }
}

/// Every entry of the board (`adrs[k]` donated `vals[k]`) is one of the
/// recorded donations.
pub open spec fn entries_recorded(vals: Seq<u64>, adrs: Seq<Pubkey>, donations: Set<(Pubkey, u64)>) -> bool {
    forall|k: int| 0 <= k < vals.len() && k < adrs.len() ==> #[trigger] donations.contains((adrs[k], vals[k]))
}

/// Law of the leader boards: recording a donation keeps every board entry a
/// recorded donation, the new donation counted among them: an address stays
/// paired with the amount it donated.
pub proof fn lemma_board_entries_recorded(
    vals: Seq<u64>,
    adrs: Seq<Pubkey>,
    donations: Set<(Pubkey, u64)>,
    cap: nat,
    amount: u64,
    donator: Pubkey,
)
    requires
        0 < cap,
        board_wf(vals, adrs, cap),
        entries_recorded(vals, adrs, donations),
    ensures
        entries_recorded(
            board_values(vals, cap, amount),
            board_addresses(vals, adrs, cap, amount, donator),
            donations.insert((donator, amount)),
        ),
{
    let d2 = donations.insert((donator, amount));
    let nv = board_values(vals, cap, amount);
    let na = board_addresses(vals, adrs, cap, amount, donator);
    if vals.len() < cap {
        assert forall|k: int| 0 <= k < nv.len() && k < na.len() implies #[trigger] d2.contains((na[k], nv[k])) by {
            if k < vals.len() {
                assert(donations.contains((adrs[k], vals[k])));
            }
        }
    } else {
        lemma_first_min_index_exists(vals);
        let i = first_min_index(vals);
        if amount > vals[i] {
            assert forall|k: int| 0 <= k < nv.len() && k < na.len() implies #[trigger] d2.contains((na[k], nv[k])) by {
                if k < i {
                    assert(donations.contains((adrs[k], vals[k])));
                } else if k < vals.len() - 1 {
                    assert(donations.contains((adrs[k + 1], vals[k + 1])));
                }
            }
        } else {
            assert forall|k: int| 0 <= k < nv.len() && k < na.len() implies #[trigger] d2.contains((na[k], nv[k])) by {
                assert(donations.contains((adrs[k], vals[k])));
            }
        }
    }
}

/// Law of the leader boards: a board either stays exactly as it was (values
/// and addresses), or it takes the donation in, as its last entry, paired with
/// its donator; it never grows by more than that one entry, and grows only
/// while it has room.
pub proof fn lemma_board_takes_donation_last(
    vals: Seq<u64>,
    adrs: Seq<Pubkey>,
    cap: nat,
    amount: u64,
    donator: Pubkey,
)
    requires
        0 < cap,
        board_wf(vals, adrs, cap),
    ensures
        ({
            let nv = board_values(vals, cap, amount);
            let na = board_addresses(vals, adrs, cap, amount, donator);
            &&& nv.len() == na.len()
            &&& nv.len() == if vals.len() < cap {
                vals.len() + 1int
            } else {
                vals.len() as int
            }
            &&& (nv == vals && na == adrs) || (nv.len() > 0 && nv.last() == amount && na.last()
                == donator)
        }),
{
    if vals.len() >= cap {
        lemma_first_min_index_exists(vals);
    }
}

/// Law of a board update, stated without the board functions: while the
/// board has room the donation is appended with its donator; once it is full,
/// let `i` be the first position of the least value: a larger donation takes
/// that entry out and is appended with its donator, any other donation leaves
/// the board as it is.
pub proof fn lemma_board_update(
    vals: Seq<u64>,
    adrs: Seq<Pubkey>,
    cap: nat,
    amount: u64,
    donator: Pubkey,
)
    requires
        0 < cap,
        board_wf(vals, adrs, cap),
    ensures
        vals.len() < cap ==> {
            &&& board_values(vals, cap, amount) == vals.push(amount)
            &&& board_addresses(vals, adrs, cap, amount, donator) == adrs.push(donator)
        },
        vals.len() >= cap ==> forall|i: int|
            #![trigger vals[i]]
            0 <= i < vals.len() && (forall|j: int| 0 <= j < vals.len() ==> vals[i] <= vals[j]) && (
            forall|j: int| 0 <= j < i ==> vals[i] < vals[j]) ==> {
                &&& amount > vals[i] ==> {
                    &&& board_values(vals, cap, amount) == vals.remove(i).push(amount)
                    &&& board_addresses(vals, adrs, cap, amount, donator) == adrs.remove(i).push(
                        donator,
                    )
                }
                &&& amount <= vals[i] ==> {
                    &&& board_values(vals, cap, amount) == vals
                    &&& board_addresses(vals, adrs, cap, amount, donator) == adrs
                }
            },
{
    if vals.len() >= cap {
        lemma_first_min_index_exists(vals);
        assert forall|i: int|
            #![trigger vals[i]]
            0 <= i < vals.len() && (forall|j: int| 0 <= j < vals.len() ==> vals[i] <= vals[j]) && (
            forall|j: int| 0 <= j < i ==> vals[i] < vals[j]) implies i == first_min_index(vals) by {
            lemma_first_min_index_unique(vals, i, first_min_index(vals));
        }
    }
}

} // verus!
