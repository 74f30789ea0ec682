//! The sum of a reward ledger.
//!
//! The engine keeps a running total beside the ledger of rewards. The total
//! is meant to mirror the sum of all entries; this module says what that sum
//! is and how it moves when an entry is written.

use vstd::prelude::*;
use vstd::set::fold::is_fun_commutative;
use vstd::set::fold::lemma_finite_set_induct;
use vstd::set::fold::lemma_fold_empty;
use vstd::set::fold::lemma_fold_insert;

verus! {

/// Adds the entry of one account to a running sum.
pub open spec fn adding(ledger: Map<Seq<char>, u128>) -> spec_fn(nat, Seq<char>) -> nat {
    |sum: nat, account: Seq<char>| sum + ledger[account] as nat
}

/// The sum of all entries of a ledger.
pub open spec fn ledger_sum(ledger: Map<Seq<char>, u128>) -> nat {
    ledger.dom().fold(0nat, adding(ledger))
}

/// Two ledgers that agree on a set of accounts have the same sum over it.
proof fn lemma_partial_sums_agree(
    accounts: Set<Seq<char>>,
    first: Map<Seq<char>, u128>,
    second: Map<Seq<char>, u128>,
)
    requires
        accounts.finite(),
        forall|k: Seq<char>| accounts.contains(k) ==> first[k] == second[k],
    ensures
        accounts.fold(0nat, adding(first)) == accounts.fold(0nat, adding(second)),
{
    let agree = |part: Set<Seq<char>>|
        part.subset_of(accounts) ==> part.fold(0nat, adding(first)) == part.fold(
            0nat,
            adding(second),
        );
    assert(is_fun_commutative(adding(first)));
    assert(is_fun_commutative(adding(second)));
    lemma_fold_empty(0nat, adding(first));
    lemma_fold_empty(0nat, adding(second));
    assert(agree(Set::empty()));
    assert forall|part: Set<Seq<char>>, k: Seq<char>|
        agree(part) && part.finite() && !part.contains(k) implies #[trigger] agree(
        part.insert(k),
    ) by {
        if part.insert(k).subset_of(accounts) {
            assert(part.subset_of(accounts)) by {
                assert forall|j: Seq<char>| part.contains(j) implies accounts.contains(j) by {
                    assert(part.insert(k).contains(j));
                }
            }
            assert(accounts.contains(k)) by {
                assert(part.insert(k).contains(k));
            }
            lemma_fold_insert(part, 0nat, adding(first), k);
            lemma_fold_insert(part, 0nat, adding(second), k);
        }
    }
    lemma_finite_set_induct(accounts, agree);
    assert(accounts.subset_of(accounts));
}

/// An empty ledger sums to zero.
pub proof fn lemma_ledger_sum_empty()
    ensures
        ledger_sum(Map::<Seq<char>, u128>::empty()) == 0,
{
    let empty = Map::<Seq<char>, u128>::empty();
    assert(empty.dom() =~= Set::<Seq<char>>::empty());
    lemma_fold_empty(0nat, adding(empty));
}

/// Writing an entry moves the sum by the difference between what is written
/// and what stood there before.
pub proof fn lemma_ledger_sum_insert(ledger: Map<Seq<char>, u128>, account: Seq<char>, entry: u128)
    requires
        ledger.dom().finite(),
    ensures
        ledger.insert(account, entry).dom().finite(),
        ledger_sum(ledger.insert(account, entry)) == ledger_sum(ledger) - (if ledger.contains_key(
            account,
        ) {
            ledger[account] as int
        } else {
            0
        }) + entry,
{
    let others = ledger.dom().remove(account);
    let written = ledger.insert(account, entry);
    assert(is_fun_commutative(adding(ledger)));
    assert(is_fun_commutative(adding(written)));
    lemma_partial_sums_agree(others, ledger, written);
    lemma_fold_insert(others, 0nat, adding(written), account);
    assert(written.dom() =~= others.insert(account));
    if ledger.contains_key(account) {
        lemma_fold_insert(others, 0nat, adding(ledger), account);
        assert(ledger.dom() =~= others.insert(account));
    } else {
        assert(ledger.dom() =~= others);
    }
}

} // verus!
