//! The balance ledger: a mapping from account address to token balance.
//!
//! The executable representation is an association vector of
//! `(address, balance)` pairs; its mathematical model is a total map from
//! address (as a character sequence) to balance, where every address
//! without an entry holds zero. Absence and an explicit zero entry are
//! indistinguishable through the model, as every read path requires.

use vstd::prelude::*;

verus! {

/// The view of one ledger entry: the address characters and the balance.
pub open spec fn entry_view(e: (String, u128)) -> (Seq<char>, u128) {
    (e.0@, e.1)
}

/// The views of all entries of an association vector, in order.
pub open spec fn entries_of(v: Seq<(String, u128)>) -> Seq<(Seq<char>, u128)> {
    v.map_values(|e: (String, u128)| entry_view(e))
}

/// The ledger that holds zero for every address.
pub open spec fn zero_ledger() -> Map<Seq<char>, u128> {
    Map::total(|a: Seq<char>| 0u128)
}

/// The total balance map described by a sequence of entries: zero
/// everywhere, overridden entry by entry, the earliest entry winning.
pub open spec fn ledger_of(s: Seq<(Seq<char>, u128)>) -> Map<Seq<char>, u128>
    decreases s.len(),
{
    if s.len() == 0 {
        zero_ledger()
    } else {
        ledger_of(s.drop_first()).insert(s[0].0, s[0].1)
    }
}

/// Entries before the first match for an address do not decide its balance.
pub proof fn lemma_ledger_of_skip(s: Seq<(Seq<char>, u128)>, a: Seq<char>, i: int)
    requires
        0 <= i <= s.len(),
        forall|j: int| 0 <= j < i ==> s[j].0 != a,
    ensures
        ledger_of(s)[a] == ledger_of(s.skip(i))[a],
    decreases i,
{
    if i == 0 {
        assert(s.skip(0) =~= s);
    } else {
        assert(s.len() > 0);
        assert(s[0].0 != a);
        lemma_ledger_of_skip(s.drop_first(), a, i - 1);
        assert(s.drop_first().skip(i - 1) =~= s.skip(i));
    }
}

/// The balance of an address is the balance of its first entry.
pub proof fn lemma_ledger_of_found(s: Seq<(Seq<char>, u128)>, a: Seq<char>, i: int)
    requires
        0 <= i < s.len(),
        forall|j: int| 0 <= j < i ==> s[j].0 != a,
        s[i].0 == a,
    ensures
        ledger_of(s)[a] == s[i].1,
{
    lemma_ledger_of_skip(s, a, i);
    assert(s.skip(i).len() > 0);
    assert(s.skip(i)[0] == s[i]);
}

/// An address with no entry at all has balance zero.
pub proof fn lemma_ledger_of_absent(s: Seq<(Seq<char>, u128)>, a: Seq<char>)
    requires
        forall|j: int| 0 <= j < s.len() ==> s[j].0 != a,
    ensures
        ledger_of(s)[a] == 0,
{
    lemma_ledger_of_skip(s, a, s.len() as int);
    assert(s.skip(s.len() as int).len() == 0);
}

/// Rewriting the balance in the first entry for an address updates the
/// ledger map at that address and nowhere else.
pub proof fn lemma_ledger_of_update(s: Seq<(Seq<char>, u128)>, a: Seq<char>, i: int, x: u128)
    requires
        0 <= i < s.len(),
        forall|j: int| 0 <= j < i ==> s[j].0 != a,
        s[i].0 == a,
    ensures
        ledger_of(s.update(i, (a, x))) =~= ledger_of(s).insert(a, x),
    decreases i,
{
    let t = s.update(i, (a, x));
    if i == 0 {
        assert(t.drop_first() =~= s.drop_first());
        assert(ledger_of(t) =~= ledger_of(s.drop_first()).insert(a, x));
        assert(ledger_of(s).insert(a, x) =~= ledger_of(s.drop_first()).insert(a, x));
    } else {
        assert(s[0].0 != a);
        lemma_ledger_of_update(s.drop_first(), a, i - 1, x);
        assert(t.drop_first() =~= s.drop_first().update(i - 1, (a, x)));
        assert(t[0] == s[0]);
        assert(ledger_of(t) =~= ledger_of(s.drop_first()).insert(a, x).insert(s[0].0, s[0].1));
        assert(ledger_of(s.drop_first()).insert(a, x).insert(s[0].0, s[0].1) =~= ledger_of(
            s.drop_first(),
        ).insert(s[0].0, s[0].1).insert(a, x));
    }
}

/// Appending an entry for an address with no earlier entry updates the
/// ledger map at that address and nowhere else.
pub proof fn lemma_ledger_of_push(s: Seq<(Seq<char>, u128)>, a: Seq<char>, x: u128)
    requires
        forall|j: int| 0 <= j < s.len() ==> s[j].0 != a,
    ensures
        ledger_of(s.push((a, x))) =~= ledger_of(s).insert(a, x),
    decreases s.len(),
{
    let t = s.push((a, x));
    if s.len() == 0 {
        assert(t.drop_first() =~= s);
        assert(t[0] == (a, x));
        assert(ledger_of(t) =~= ledger_of(s).insert(a, x));
    } else {
        assert(s[0].0 != a);
        lemma_ledger_of_push(s.drop_first(), a, x);
        assert(t.drop_first() =~= s.drop_first().push((a, x)));
        assert(t[0] == s[0]);
        assert(ledger_of(s) =~= ledger_of(s.drop_first()).insert(s[0].0, s[0].1));
        assert(ledger_of(t) =~= ledger_of(s.drop_first()).insert(a, x).insert(s[0].0, s[0].1));
        assert(ledger_of(s.drop_first()).insert(a, x).insert(s[0].0, s[0].1) =~= ledger_of(
            s.drop_first(),
        ).insert(s[0].0, s[0].1).insert(a, x));
        assert(ledger_of(t) =~= ledger_of(s).insert(a, x));
    }
}

/// The balance an association vector holds for `addr`: the balance of the
/// first entry for that address, or zero when there is none.
pub fn vec_balance_of(v: &Vec<(String, u128)>, addr: &String) -> (b: u128)
    ensures
        b == ledger_of(entries_of(v@))[addr@],
{
    let n = v.len();
    let mut i: usize = 0;
    while i < n
        invariant
            n == v.len(),
            0 <= i <= n,
            forall|j: int| 0 <= j < i ==> entries_of(v@)[j].0 != addr@,
        decreases n - i,
    {
        if v[i].0.eq(addr) {
            proof {
                lemma_ledger_of_found(entries_of(v@), addr@, i as int);
            }
            return v[i].1;
        }
        i += 1;
    }
    proof {
        lemma_ledger_of_absent(entries_of(v@), addr@);
    }
    0
}

/// Credit `add` tokens to `addr`, creating the entry if it is absent.
/// The caller has ruled overflow out, so the credit cannot fail.
pub fn vec_credit(v: &mut Vec<(String, u128)>, addr: &String, add: u128)
    requires
        ledger_of(entries_of(old(v)@))[addr@] + add <= u128::MAX,
    ensures
        ledger_of(entries_of(final(v)@)) == credited(ledger_of(entries_of(old(v)@)), addr@, add),
{
    let n = v.len();
    let mut i: usize = 0;
    while i < n
        invariant
            n == v.len(),
            0 <= i <= n,
            *v == *old(v),
            forall|j: int| 0 <= j < i ==> entries_of(v@)[j].0 != addr@,
            ledger_of(entries_of(v@))[addr@] + add <= u128::MAX,
        decreases n - i,
    {
        if v[i].0.eq(addr) {
            proof {
                lemma_ledger_of_found(entries_of(v@), addr@, i as int);
            }
            let nb = v[i].1 + add;
            v.set(i, (addr.clone(), nb));
            proof {
                assert(entries_of(v@) =~= entries_of(old(v)@).update(i as int, (addr@, nb)));
                lemma_ledger_of_update(entries_of(old(v)@), addr@, i as int, nb);
            }
            return;
        }
        i += 1;
    }
    proof {
        lemma_ledger_of_absent(entries_of(v@), addr@);
    }
    v.push((addr.clone(), add));
    proof {
        assert(entries_of(v@) =~= entries_of(old(v)@).push((addr@, add)));
        lemma_ledger_of_push(entries_of(old(v)@), addr@, add);
    }
}

/// Debit `sub` tokens from `addr`. The caller has checked the balance
/// covers the debit, so no entry can go below zero.
pub fn vec_debit(v: &mut Vec<(String, u128)>, addr: &String, sub: u128)
    requires
        sub <= ledger_of(entries_of(old(v)@))[addr@],
    ensures
        ledger_of(entries_of(final(v)@)) == ledger_of(entries_of(old(v)@)).insert(
            addr@,
            (ledger_of(entries_of(old(v)@))[addr@] - sub) as u128,
        ),
{
    let n = v.len();
    let mut i: usize = 0;
    while i < n
        invariant
            n == v.len(),
            0 <= i <= n,
            *v == *old(v),
            forall|j: int| 0 <= j < i ==> entries_of(v@)[j].0 != addr@,
            sub <= ledger_of(entries_of(v@))[addr@],
        decreases n - i,
    {
        if v[i].0.eq(addr) {
            proof {
                lemma_ledger_of_found(entries_of(v@), addr@, i as int);
            }
            let nb = v[i].1 - sub;
            v.set(i, (addr.clone(), nb));
            proof {
                assert(entries_of(v@) =~= entries_of(old(v)@).update(i as int, (addr@, nb)));
                lemma_ledger_of_update(entries_of(old(v)@), addr@, i as int, nb);
            }
            return;
        }
        i += 1;
    }
    proof {
        lemma_ledger_of_absent(entries_of(v@), addr@);
    }
    v.push((addr.clone(), 0));
    proof {
        assert(entries_of(v@) =~= entries_of(old(v)@).push((addr@, 0u128)));
        lemma_ledger_of_push(entries_of(old(v)@), addr@, 0);
    }
}

/// A single credit of `x` to address `a` does not overflow the balance.
pub open spec fn credit_ok(m: Map<Seq<char>, u128>, a: Seq<char>, x: u128) -> bool {
    m[a] + x <= u128::MAX
}

/// The ledger after crediting `x` to address `a`.
pub open spec fn credited(m: Map<Seq<char>, u128>, a: Seq<char>, x: u128) -> Map<Seq<char>, u128> {
    m.insert(a, (m[a] + x) as u128)
}

} // verus!
