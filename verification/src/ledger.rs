//! The ledger: a flat store of accounts keyed by address.
//!
//! The store is a vector of entries with pairwise distinct addresses; its
//! mathematical model is the `Map` from each address to the model of the
//! account stored there. Every mutation is specified against that map, so
//! the engine's contracts can state exactly which addresses an operation
//! touches and how.

use vstd::prelude::*;

use crate::account::AccountData;
use crate::account::AccountDataV;
use crate::account::TokenAccount;
use crate::account::TokenAccountV;
use crate::account::clone_bytes;
use crate::error::ScrtEscrowErrors;

verus! {

/// One address of the ledger and what it holds.
pub struct LedgerEntry {
    pub addr: Vec<u8>,
    pub data: AccountData,
}

/// No two entries occupy the same address.
pub open spec fn distinct_addrs(s: Seq<LedgerEntry>) -> bool {
    forall|i: int, j: int| 0 <= i < j < s.len() ==> s[i].addr@ != s[j].addr@
}

/// Some entry occupies address `k`.
pub open spec fn has_addr(s: Seq<LedgerEntry>, k: Seq<u8>) -> bool {
    exists|i: int| 0 <= i < s.len() && #[trigger] s[i].addr@ == k
}

/// The map modelled by a sequence of entries; a later entry for an address
/// shadows an earlier one, which `distinct_addrs` rules out.
pub open spec fn entries_map(s: Seq<LedgerEntry>) -> Map<Seq<u8>, AccountDataV>
    decreases s.len(),
{
    if s.len() == 0 {
        Map::empty()
    } else {
        entries_map(s.drop_last()).insert(s.last().addr@, s.last().data@)
    }
}

/// The modelled map holds exactly the addresses that some entry occupies.
pub proof fn lemma_entries_map_dom(s: Seq<LedgerEntry>)
    ensures
        forall|k: Seq<u8>| #[trigger] entries_map(s).contains_key(k) <==> has_addr(s, k),
    decreases s.len(),
{
    if s.len() == 0 {
    } else {
        lemma_entries_map_dom(s.drop_last());
        assert forall|k: Seq<u8>| #[trigger] entries_map(s).contains_key(k) <==> has_addr(
            s,
            k,
        ) by {
            assert(entries_map(s) == entries_map(s.drop_last()).insert(
                s.last().addr@,
                s.last().data@,
            ));
            if entries_map(s).contains_key(k) {
                if k == s.last().addr@ {
                    assert(s[s.len() - 1].addr@ == k);
                    assert(has_addr(s, k));
                } else {
                    assert(entries_map(s.drop_last()).contains_key(k));
                    assert(has_addr(s.drop_last(), k));
                    let i = choose|i: int|
                        0 <= i < s.drop_last().len() && #[trigger] s.drop_last()[i].addr@ == k;
                    assert(s.drop_last()[i] == s[i]);
                    assert(s[i].addr@ == k);
                    assert(has_addr(s, k));
                }
            }
            if has_addr(s, k) {
                let i = choose|i: int| 0 <= i < s.len() && #[trigger] s[i].addr@ == k;
                if i < s.len() - 1 {
                    assert(s.drop_last()[i] == s[i]);
                    assert(s.drop_last()[i].addr@ == k);
                    assert(has_addr(s.drop_last(), k));
                    assert(entries_map(s.drop_last()).contains_key(k));
                } else {
                    assert(k == s.last().addr@);
                }
                assert(entries_map(s).contains_key(k));
            }
        }
    }
}

/// In a store with distinct addresses, the entry at index `i` is what the
/// modelled map holds at its address.
pub proof fn lemma_entries_map_index(s: Seq<LedgerEntry>, i: int)
    requires
        distinct_addrs(s),
        0 <= i < s.len(),
    ensures
        entries_map(s).contains_key(s[i].addr@),
        entries_map(s)[s[i].addr@] == s[i].data@,
    decreases s.len(),
{
    if i == s.len() - 1 {
    } else {
        assert(s.drop_last()[i] == s[i]);
        lemma_entries_map_index(s.drop_last(), i);
        assert(s[i].addr@ != s.last().addr@);
    }
}

/// Replacing the entry at index `i` while keeping its address models
/// a map insert at that address.
pub proof fn lemma_entries_map_update(s: Seq<LedgerEntry>, i: int, e: LedgerEntry)
    requires
        distinct_addrs(s),
        0 <= i < s.len(),
        e.addr@ == s[i].addr@,
    ensures
        entries_map(s.update(i, e)) == entries_map(s).insert(e.addr@, e.data@),
        distinct_addrs(s.update(i, e)),
    decreases s.len(),
{
    let t = s.update(i, e);
    assert(distinct_addrs(t)) by {
        assert forall|p: int, q: int| 0 <= p < q < t.len() implies t[p].addr@ != t[q].addr@ by {
            assert(s[p].addr@ != s[q].addr@);
        }
    }
    if i == s.len() - 1 {
        assert(t.drop_last() =~= s.drop_last());
        assert(entries_map(t) == entries_map(s.drop_last()).insert(e.addr@, e.data@));
        assert(entries_map(s.drop_last()).insert(e.addr@, e.data@) =~= entries_map(s).insert(
            e.addr@,
            e.data@,
        ));
    } else {
        assert(t.drop_last() =~= s.drop_last().update(i, e));
        assert(s.drop_last()[i] == s[i]);
        lemma_entries_map_update(s.drop_last(), i, e);
        assert(t.last() == s.last());
        assert(entries_map(t) == entries_map(s.drop_last()).insert(e.addr@, e.data@).insert(
            s.last().addr@,
            s.last().data@,
        ));
        assert(s[i].addr@ != s.last().addr@);
        assert(entries_map(s.drop_last()).insert(e.addr@, e.data@).insert(
            s.last().addr@,
            s.last().data@,
        ) =~= entries_map(s).insert(e.addr@, e.data@));
    }
}

/// Appending an entry at a fresh address models a map insert at that
/// address.
pub proof fn lemma_entries_map_push(s: Seq<LedgerEntry>, e: LedgerEntry)
    requires
        distinct_addrs(s),
        !has_addr(s, e.addr@),
    ensures
        entries_map(s.push(e)) == entries_map(s).insert(e.addr@, e.data@),
        distinct_addrs(s.push(e)),
{
    let t = s.push(e);
    assert(t.drop_last() =~= s);
    assert(distinct_addrs(t)) by {
        assert forall|p: int, q: int| 0 <= p < q < t.len() implies t[p].addr@ != t[q].addr@ by {
            if q == t.len() - 1 {
                assert(s[p].addr@ == t[p].addr@);
            } else {
                assert(s[p].addr@ != s[q].addr@);
            }
        }
    }
}

/// Removing the entry at index `i` models a map removal at its address.
pub proof fn lemma_entries_map_remove(s: Seq<LedgerEntry>, i: int)
    requires
        distinct_addrs(s),
        0 <= i < s.len(),
    ensures
        entries_map(s.remove(i)) == entries_map(s).remove(s[i].addr@),
        distinct_addrs(s.remove(i)),
    decreases s.len(),
{
    let t = s.remove(i);
    assert(distinct_addrs(t)) by {
        assert forall|p: int, q: int| 0 <= p < q < t.len() implies t[p].addr@ != t[q].addr@ by {
            let p0 = if p < i {
                p
            } else {
                p + 1
            };
            let q0 = if q < i {
                q
            } else {
                q + 1
            };
            assert(t[p] == s[p0]);
            assert(t[q] == s[q0]);
            assert(s[p0].addr@ != s[q0].addr@);
        }
    }
    if i == s.len() - 1 {
        assert(t =~= s.drop_last());
        lemma_entries_map_dom(s.drop_last());
        assert forall|p: int| 0 <= p < s.drop_last().len() implies #[trigger] s.drop_last()[p].addr@
            != s[i].addr@ by {
            assert(s[p].addr@ != s[i].addr@);
        }
        assert(!has_addr(s.drop_last(), s[i].addr@));
        assert(!entries_map(s.drop_last()).contains_key(s[i].addr@));
        assert(entries_map(t) =~= entries_map(s).remove(s[i].addr@));
    } else {
        assert(t.drop_last() =~= s.drop_last().remove(i));
        assert(s.drop_last()[i] == s[i]);
        lemma_entries_map_remove(s.drop_last(), i);
        assert(t.last() == s.last());
        assert(entries_map(t) == entries_map(s.drop_last()).remove(s[i].addr@).insert(
            s.last().addr@,
            s.last().data@,
        ));
        assert(s[i].addr@ != s.last().addr@);
        assert(entries_map(s.drop_last()).remove(s[i].addr@).insert(s.last().addr@, s.last().data@)
            =~= entries_map(s).remove(s[i].addr@));
    }
}

/// Two stores whose entries agree address-for-address and model-for-model
/// model the same map.
pub proof fn lemma_entries_map_congruence(s1: Seq<LedgerEntry>, s2: Seq<LedgerEntry>)
    requires
        s1.len() == s2.len(),
        forall|i: int|
            0 <= i < s1.len() ==> (#[trigger] s1[i]).addr@ == s2[i].addr@ && s1[i].data@
                == s2[i].data@,
    ensures
        entries_map(s1) == entries_map(s2),
    decreases s1.len(),
{
    if s1.len() == 0 {
    } else {
        assert forall|i: int|
            0 <= i < s1.drop_last().len() implies (#[trigger] s1.drop_last()[i]).addr@
            == s2.drop_last()[i].addr@ && s1.drop_last()[i].data@ == s2.drop_last()[i].data@ by {
            assert(s1.drop_last()[i] == s1[i]);
            assert(s2.drop_last()[i] == s2[i]);
            assert(s1[i].addr@ == s2[i].addr@ && s1[i].data@ == s2[i].data@);
        }
        lemma_entries_map_congruence(s1.drop_last(), s2.drop_last());
        assert((s1[s1.len() - 1]).addr@ == s2[s1.len() - 1].addr@ && s1[s1.len() - 1].data@
            == s2[s1.len() - 1].data@);
        assert(s1.last() == s1[s1.len() - 1]);
        assert(s2.last() == s2[s2.len() - 1]);
    }
}

/// The flat account store.
pub struct Ledger {
    entries: Vec<LedgerEntry>,
}

impl View for Ledger {
    type V = Map<Seq<u8>, AccountDataV>;

    closed spec fn view(&self) -> Map<Seq<u8>, AccountDataV> {
        entries_map(self.entries@)
    }
}

/// Tests whether two byte strings hold the same bytes.
pub fn bytes_eq(a: &Vec<u8>, b: &Vec<u8>) -> (r: bool)
    ensures
        r == (a@ == b@),
{
    if a.len() != b.len() {
        return false;
    }
    let mut i: usize = 0;
    while i < a.len()
        invariant
            0 <= i <= a@.len(),
            a@.len() == b@.len(),
            forall|j: int| 0 <= j < i ==> a@[j] == b@[j],
        decreases a@.len() - i,
    {
        if a[i] != b[i] {
            return false;
        }
        i += 1;
    }
    proof {
        assert(a@ =~= b@);
    }
    true
}

impl Ledger {
    /// Addresses are pairwise distinct, so the store is faithfully
    /// described by its map model.
    pub closed spec fn wf(&self) -> bool {
        distinct_addrs(self.entries@)
    }

    /// An empty ledger.
    pub fn new() -> (r: Ledger)
        ensures
            r.wf(),
            r@ == Map::<Seq<u8>, AccountDataV>::empty(),
    {
        Ledger { entries: Vec::new() }
    }

    /// The index of the entry at `addr`, if the address is occupied.
    fn find_index(&self, addr: &Vec<u8>) -> (r: Option<usize>)
        ensures
            match r {
                Some(i) => i < self.entries@.len() && self.entries@[i as int].addr@ == addr@,
                None => !has_addr(self.entries@, addr@),
            },
    {
        let mut i: usize = 0;
        while i < self.entries.len()
            invariant
                0 <= i <= self.entries@.len(),
                forall|j: int| 0 <= j < i ==> #[trigger] self.entries@[j].addr@ != addr@,
            decreases self.entries@.len() - i,
        {
            if bytes_eq(&self.entries[i].addr, addr) {
                return Some(i);
            }
            i += 1;
        }
        None
    }

    /// What the ledger holds at `addr`.
    pub fn get_ref(&self, addr: &Vec<u8>) -> (r: Option<&AccountData>)
        requires
            self.wf(),
        ensures
            match r {
                Some(d) => self@.contains_key(addr@) && d@ == self@[addr@],
                None => !self@.contains_key(addr@),
            },
    {
        proof {
            lemma_entries_map_dom(self.entries@);
        }
        match self.find_index(addr) {
            Some(i) => {
                proof {
                    lemma_entries_map_index(self.entries@, i as int);
                }
                Some(&self.entries[i].data)
            },
            None => None,
        }
    }

    /// Stores `data` at `addr`, creating the entry or replacing what was
    /// there.
    pub fn put(&mut self, addr: &Vec<u8>, data: AccountData)
        requires
            old(self).wf(),
        ensures
            final(self).wf(),
            final(self)@ == old(self)@.insert(addr@, data@),
    {
        let entry = LedgerEntry { addr: clone_bytes(addr), data };
        match self.find_index(addr) {
            Some(i) => {
                proof {
                    lemma_entries_map_update(self.entries@, i as int, entry);
                }
                self.entries[i] = entry;
            },
            None => {
                proof {
                    lemma_entries_map_push(self.entries@, entry);
                }
                self.entries.push(entry);
            },
        }
    }

    /// Frees the address `addr`; a no-op when the address is empty.
    pub fn remove_at(&mut self, addr: &Vec<u8>)
        requires
            old(self).wf(),
        ensures
            final(self).wf(),
            final(self)@ == old(self)@.remove(addr@),
    {
        match self.find_index(addr) {
            Some(i) => {
                proof {
                    lemma_entries_map_remove(self.entries@, i as int);
                }
                self.entries.remove(i);
            },
            None => {
                proof {
                    lemma_entries_map_dom(self.entries@);
                    assert(self@.remove(addr@) =~= self@);
                }
            },
        }
    }

    /// Copies the whole store, preserving its model.
    pub fn duplicate(&self) -> (r: Ledger)
        requires
            self.wf(),
        ensures
            r.wf(),
            r@ == self@,
    {
        let mut copied: Vec<LedgerEntry> = Vec::new();
        let mut i: usize = 0;
        while i < self.entries.len()
            invariant
                0 <= i <= self.entries@.len(),
                copied@.len() == i,
                forall|j: int|
                    0 <= j < i ==> #[trigger] copied@[j].addr@ == self.entries@[j].addr@
                        && copied@[j].data@ == self.entries@[j].data@,
            decreases self.entries@.len() - i,
        {
            let e = &self.entries[i];
            copied.push(LedgerEntry { addr: clone_bytes(&e.addr), data: e.data.duplicate() });
            i += 1;
        }
        proof {
            lemma_entries_map_congruence(copied@, self.entries@);
            assert(distinct_addrs(copied@)) by {
                assert forall|p: int, q: int|
                    0 <= p < q < copied@.len() implies copied@[p].addr@ != copied@[q].addr@ by {
                    assert(self.entries@[p].addr@ != self.entries@[q].addr@);
                }
            }
        }
        Ledger { entries: copied }
    }
}

/// The address holds a token account.
pub open spec fn is_token(m: Map<Seq<u8>, AccountDataV>, a: Seq<u8>) -> bool {
    m.contains_key(a) && m[a] is Token
}

/// The token account at an address known to hold one.
pub open spec fn tok(m: Map<Seq<u8>, AccountDataV>, a: Seq<u8>) -> TokenAccountV {
    m[a]->Token_0
}

/// The address holds an escrow record.
pub open spec fn is_escrow(m: Map<Seq<u8>, AccountDataV>, a: Seq<u8>) -> bool {
    m.contains_key(a) && m[a] is Escrow
}

/// The escrow record at an address known to hold one.
pub open spec fn esc(m: Map<Seq<u8>, AccountDataV>, a: Seq<u8>) -> crate::account::EscrowAccountV {
    m[a]->Escrow_0
}

/// The address holds a fee registry record.
pub open spec fn is_registry(m: Map<Seq<u8>, AccountDataV>, a: Seq<u8>) -> bool {
    m.contains_key(a) && m[a] is Registry
}

/// The registry record at an address known to hold one.
pub open spec fn reg(m: Map<Seq<u8>, AccountDataV>, a: Seq<u8>) -> crate::account::PdaAccountV {
    m[a]->Registry_0
}

/// Moving `amount` from `from` to `to`: the debited and credited ledger on
/// success, or the first reason the movement is impossible. A transfer
/// from an account to itself leaves its balance unchanged.
pub open spec fn spec_transfer(
    m: Map<Seq<u8>, AccountDataV>,
    from: Seq<u8>,
    to: Seq<u8>,
    amount: u64,
) -> Result<Map<Seq<u8>, AccountDataV>, ScrtEscrowErrors> {
    if !is_token(m, from) || !is_token(m, to) {
        Err(ScrtEscrowErrors::NotFound)
    } else if tok(m, from).mint != tok(m, to).mint {
        Err(ScrtEscrowErrors::AssetMismatch)
    } else if tok(m, from).balance < amount {
        Err(ScrtEscrowErrors::InsufficientBalance)
    } else {
        let debited = m.insert(
            from,
            AccountDataV::Token(
                TokenAccountV { balance: (tok(m, from).balance - amount) as u64, ..tok(m, from) },
            ),
        );
        if tok(debited, to).balance + amount > u64::MAX {
            Err(ScrtEscrowErrors::AmountOverflow)
        } else {
            Ok(
                debited.insert(
                    to,
                    AccountDataV::Token(
                        TokenAccountV {
                            balance: (tok(debited, to).balance + amount) as u64,
                            ..tok(debited, to)
                        },
                    ),
                ),
            )
        }
    }
}

/// Closing the empty token account at `a`: its address is freed.
pub open spec fn spec_close(m: Map<Seq<u8>, AccountDataV>, a: Seq<u8>) -> Result<
    Map<Seq<u8>, AccountDataV>,
    ScrtEscrowErrors,
> {
    if !is_token(m, a) {
        Err(ScrtEscrowErrors::NotFound)
    } else if tok(m, a).balance != 0 {
        Err(ScrtEscrowErrors::VaultNotEmpty)
    } else {
        Ok(m.remove(a))
    }
}

impl Ledger {
    /// Moves `amount` from `from` to `to`, or reports why it cannot; an
    /// error leaves the ledger untouched.
    pub fn transfer(&mut self, from: &Vec<u8>, to: &Vec<u8>, amount: u64) -> (r: Result<
        (),
        ScrtEscrowErrors,
    >)
        requires
            old(self).wf(),
        ensures
            final(self).wf(),
            match r {
                Ok(_) => spec_transfer(old(self)@, from@, to@, amount) == Ok::<
                    _,
                    ScrtEscrowErrors,
                >(final(self)@),
                Err(e) => final(self)@ == old(self)@ && spec_transfer(
                    old(self)@,
                    from@,
                    to@,
                    amount,
                ) == Err::<Map<Seq<u8>, AccountDataV>, _>(e),
            },
    {
        let from_tok: TokenAccount = match self.get_ref(from) {
            Some(AccountData::Token(t)) => t.duplicate(),
            _ => {
                return Err(ScrtEscrowErrors::NotFound);
            },
        };
        let to_tok: TokenAccount = match self.get_ref(to) {
            Some(AccountData::Token(t)) => t.duplicate(),
            _ => {
                return Err(ScrtEscrowErrors::NotFound);
            },
        };
        if !bytes_eq(&from_tok.mint, &to_tok.mint) {
            return Err(ScrtEscrowErrors::AssetMismatch);
        }
        if from_tok.balance < amount {
            return Err(ScrtEscrowErrors::InsufficientBalance);
        }
        let aliased = bytes_eq(from, to);
        let mid_balance: u64 = if aliased {
            from_tok.balance - amount
        } else {
            to_tok.balance
        };
        if mid_balance > u64::MAX - amount {
            return Err(ScrtEscrowErrors::AmountOverflow);
        }
        let debited = TokenAccount {
            mint: clone_bytes(&from_tok.mint),
            owner: clone_bytes(&from_tok.owner),
            balance: from_tok.balance - amount,
        };
        self.put(from, AccountData::Token(debited));
        let credited = TokenAccount {
            mint: if aliased {
                from_tok.mint
            } else {
                to_tok.mint
            },
            owner: if aliased {
                from_tok.owner
            } else {
                to_tok.owner
            },
            balance: mid_balance + amount,
        };
        self.put(to, AccountData::Token(credited));
        proof {
            let expected = spec_transfer(old(self)@, from@, to@, amount);
            assert(expected is Ok);
            assert(final(self)@ =~= expected->Ok_0);
        }
        Ok(())
    }

    /// Closes the empty token account at `a`, freeing its address; an
    /// error leaves the ledger untouched.
    pub fn close_token(&mut self, a: &Vec<u8>) -> (r: Result<(), ScrtEscrowErrors>)
        requires
            old(self).wf(),
        ensures
            final(self).wf(),
            match r {
                Ok(_) => spec_close(old(self)@, a@) == Ok::<_, ScrtEscrowErrors>(final(self)@),
                Err(e) => final(self)@ == old(self)@ && spec_close(old(self)@, a@) == Err::<
                    Map<Seq<u8>, AccountDataV>,
                    _,
                >(e),
            },
    {
        match self.get_ref(a) {
            Some(AccountData::Token(t)) => {
                if t.balance != 0 {
                    return Err(ScrtEscrowErrors::VaultNotEmpty);
                }
            },
            _ => {
                return Err(ScrtEscrowErrors::NotFound);
            },
        }
        self.remove_at(a);
        Ok(())
    }
}

/// Reads the token account at `addr`, or reports that none is there.
pub(crate) fn read_token(ledger: &Ledger, addr: &Vec<u8>) -> (r: Result<
    TokenAccount,
    ScrtEscrowErrors,
>)
    requires
        ledger.wf(),
    ensures
        match r {
            Ok(t) => is_token(ledger@, addr@) && t@ == tok(ledger@, addr@),
            Err(e) => !is_token(ledger@, addr@) && e == ScrtEscrowErrors::NotFound,
        },
{
    match ledger.get_ref(addr) {
        Some(AccountData::Token(t)) => Ok(t.duplicate()),
        _ => Err(ScrtEscrowErrors::NotFound),
    }
}

} // verus!
