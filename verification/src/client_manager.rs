//! The registry of connected clients, keyed by the address they connected
//! from.

use vstd::prelude::*;
use crate::client::Client;
use crate::peer_addr::PeerAddr;
use crate::signal::{Delivery, all_carry, delivery_targets};

verus! {

/// The connected clients, each under its address, in the order they first
/// registered.  No address occurs twice.
pub struct ClientManager {
    clients: Vec<(PeerAddr, Client)>,
}

/// The addresses of a list of entries, in order.
pub open spec fn entry_addrs(s: Seq<(PeerAddr, Client)>) -> Seq<PeerAddr> {
    s.map_values(|e: (PeerAddr, Client)| e.0)
}

/// The position of `addr` in a list of entries.
pub open spec fn position_of(s: Seq<(PeerAddr, Client)>, addr: PeerAddr) -> int {
    choose|i: int| 0 <= i < s.len() && s[i].0 == addr
}

/// The map that a list of entries with distinct addresses stands for.
pub open spec fn entries_map(s: Seq<(PeerAddr, Client)>) -> Map<PeerAddr, Client> {
    Map::new(
        |a: PeerAddr| entry_addrs(s).contains(a),
        |a: PeerAddr| s[position_of(s, a)].1,
    )
}

/// The test "is not `addr`".
pub open spec fn not_addr(addr: PeerAddr) -> spec_fn(PeerAddr) -> bool {
    |a: PeerAddr| a != addr
}

/// Every address in `s` other than `addr`, in order.
pub open spec fn others(s: Seq<PeerAddr>, addr: PeerAddr) -> Seq<PeerAddr> {
    s.filter(not_addr(addr))
}

/// Filtering keeps a sequence whose elements all pass.
pub proof fn lemma_filter_keeps_all(s: Seq<PeerAddr>, p: spec_fn(PeerAddr) -> bool)
    requires
        forall|i: int| 0 <= i < s.len() ==> p(#[trigger] s[i]),
    ensures
        s.filter(p) == s,
    decreases s.len(),
{
    reveal(Seq::filter);
    if s.len() > 0 {
        lemma_filter_keeps_all(s.drop_last(), p);
        assert(s.drop_last().push(s.last()) =~= s);
    }
}

/// Removing the one occurrence of `addr` from a sequence without duplicates
/// is filtering it out.
pub proof fn lemma_remove_is_filter(s: Seq<PeerAddr>, i: int)
    requires
        s.no_duplicates(),
        0 <= i < s.len(),
    ensures
        s.remove(i) == others(s, s[i]),
{
    let a = s[i];
    let p = not_addr(a);
    let pre = s.subrange(0, i);
    let mid = seq![a];
    let post = s.subrange(i + 1, s.len() as int);
    assert(s =~= pre + mid + post);
    Seq::filter_distributes_over_add(pre + mid, post, p);
    Seq::filter_distributes_over_add(pre, mid, p);
    assert forall|k: int| 0 <= k < pre.len() implies p(#[trigger] pre[k]) by {
        assert(pre[k] == s[k]);
    }
    assert forall|k: int| 0 <= k < post.len() implies p(#[trigger] post[k]) by {
        assert(post[k] == s[k + i + 1]);
    }
    lemma_filter_keeps_all(pre, p);
    lemma_filter_keeps_all(post, p);
    reveal_with_fuel(Seq::filter, 2);
    assert(mid.drop_last() =~= Seq::<PeerAddr>::empty());
    assert(mid.filter(p) =~= Seq::<PeerAddr>::empty());
    assert(s.remove(i) =~= pre + post);
}

/// In a list of entries with distinct addresses, the entry at `i` is the one
/// the map gives for its address.
pub proof fn lemma_entry_lookup(s: Seq<(PeerAddr, Client)>, i: int)
    requires
        entry_addrs(s).no_duplicates(),
        0 <= i < s.len(),
    ensures
        entries_map(s).contains_key(s[i].0),
        entries_map(s)[s[i].0] == s[i].1,
        position_of(s, s[i].0) == i,
{
    assert(entry_addrs(s)[i] == s[i].0);
    let j = position_of(s, s[i].0);
    assert(0 <= j < s.len() && s[j].0 == s[i].0);
    assert(entry_addrs(s)[j] == s[j].0);
}

/// An address is in the map exactly when some entry has it.
pub proof fn lemma_entry_absent(s: Seq<(PeerAddr, Client)>, a: PeerAddr)
    ensures
        entries_map(s).contains_key(a) <==> exists|i: int| 0 <= i < s.len() && s[i].0 == a,
{
    if entries_map(s).contains_key(a) {
        let k = choose|k: int| 0 <= k < entry_addrs(s).len() && entry_addrs(s)[k] == a;
        assert(s[k].0 == a);
    }
    if exists|i: int| 0 <= i < s.len() && s[i].0 == a {
        let k = choose|i: int| 0 <= i < s.len() && s[i].0 == a;
        assert(entry_addrs(s)[k] == a);
    }
}

/// Replacing the entry at `i` by one with the same address replaces that
/// address's client and leaves the addresses as they were.
pub proof fn lemma_update_entry(s: Seq<(PeerAddr, Client)>, i: int, e: (PeerAddr, Client))
    requires
        entry_addrs(s).no_duplicates(),
        0 <= i < s.len(),
        s[i].0 == e.0,
    ensures
        entry_addrs(s.update(i, e)) == entry_addrs(s),
        entries_map(s.update(i, e)) == entries_map(s).insert(e.0, e.1),
{
    let t = s.update(i, e);
    assert(entry_addrs(t) =~= entry_addrs(s));
    lemma_entry_lookup(s, i);
    assert forall|a: PeerAddr|
        #[trigger] entries_map(t).contains_key(a) implies entries_map(t)[a]
        == entries_map(s).insert(e.0, e.1)[a] by {
        lemma_entry_absent(t, a);
        let w = choose|w: int| 0 <= w < t.len() && t[w].0 == a;
        lemma_entry_lookup(t, w);
        lemma_entry_lookup(t, i);
        if a != e.0 {
            lemma_entry_lookup(s, w);
        }
    }
    assert(entries_map(t) =~= entries_map(s).insert(e.0, e.1));
}

/// Filtering keeps exactly the elements that pass, and keeps a sequence
/// without duplicates free of them.
pub proof fn lemma_filter_members(s: Seq<PeerAddr>, p: spec_fn(PeerAddr) -> bool)
    ensures
        forall|a: PeerAddr| #[trigger] s.filter(p).contains(a) <==> (s.contains(a) && p(a)),
        s.no_duplicates() ==> s.filter(p).no_duplicates(),
    decreases s.len(),
{
    reveal(Seq::filter);
    if s.len() > 0 {
        let init = s.drop_last();
        lemma_filter_members(init, p);
        assert(init.push(s.last()) =~= s);
        init.lemma_filter_push(s.last(), p);
        assert forall|a: PeerAddr| #[trigger] s.contains(a) <==> (init.contains(a) || a == s.last()) by {
            if s.contains(a) {
                let k = choose|k: int| 0 <= k < s.len() && s[k] == a;
                if k < s.len() - 1 {
                    assert(init[k] == a);
                }
            }
            if init.contains(a) {
                let k = choose|k: int| 0 <= k < init.len() && init[k] == a;
                assert(s[k] == a);
            }
            if a == s.last() {
                assert(s[s.len() - 1] == a);
            }
        }
        let f0 = init.filter(p);
        assert forall|a: PeerAddr| #[trigger] f0.push(s.last()).contains(a) <==> (f0.contains(a) || a == s.last()) by {
            if f0.push(s.last()).contains(a) {
                let k = choose|k: int| 0 <= k < f0.push(s.last()).len() && f0.push(s.last())[k] == a;
                if k < f0.len() {
                    assert(f0[k] == a);
                }
            }
            if f0.contains(a) {
                let k = choose|k: int| 0 <= k < f0.len() && f0[k] == a;
                assert(f0.push(s.last())[k] == a);
            }
            if a == s.last() {
                assert(f0.push(s.last())[f0.len() as int] == a);
            }
        }
        assert forall|a: PeerAddr| #[trigger] s.filter(p).contains(a) <==> (s.contains(a) && p(a)) by {
            assert(init.filter(p).contains(a) <==> (init.contains(a) && p(a)));
        }
        if s.no_duplicates() {
            assert(init.no_duplicates());
            assert(!init.contains(s.last())) by {
                if init.contains(s.last()) {
                    let k = choose|k: int| 0 <= k < init.len() && init[k] == s.last();
                    assert(s[k] == s[s.len() - 1]);
                }
            }
            let f = init.filter(p);
            assert(!f.contains(s.last()));
            if p(s.last()) {
                assert forall|i: int, j: int|
                    0 <= i < f.push(s.last()).len() && 0 <= j < f.push(s.last()).len() && i != j
                    implies f.push(s.last())[i] != f.push(s.last())[j] by {
                    if i < f.len() && j < f.len() {
                    } else if i < f.len() {
                        assert(f.contains(f[i]));
                    } else if j < f.len() {
                        assert(f.contains(f[j]));
                    }
                }
            }
        }
    } else {
        assert forall|a: PeerAddr| !#[trigger] s.filter(p).contains(a) by {}
    }
}

/// Law: a relay from `from` reaches exactly the registered clients other
/// than `from`: never the sender, never an unregistered address, and every
/// other registered client once.
pub proof fn lemma_relay_targets(m: &ClientManager, from: PeerAddr)
    requires
        m.well_formed(),
    ensures
        forall|a: PeerAddr| #[trigger] others(m.addrs(), from).contains(a)
            <==> (m@.contains_key(a) && a != from),
        others(m.addrs(), from).no_duplicates(),
{
    m.lemma_addrs_are_keys();
    lemma_filter_members(m.addrs(), not_addr(from));
}

/// Law: after registering `client` at `addr`, a lookup at `addr` gives
/// `client`, and every other address is registered as before with the same
/// client.
pub proof fn lemma_lookup_after_add(
    before: &ClientManager,
    after: &ClientManager,
    addr: PeerAddr,
    client: Client,
)
    requires
        after@ == before@.insert(addr, client),
    ensures
        after@.contains_key(addr),
        after@[addr] == client,
        forall|a: PeerAddr| a != addr ==> (#[trigger] after@.contains_key(a) == before@.contains_key(a)
            && (before@.contains_key(a) ==> after@[a] == before@[a])),
{
}

/// Law: after unregistering `addr`, a lookup there finds nothing, and every
/// other address is registered as before with the same client.
pub proof fn lemma_lookup_after_remove(before: &ClientManager, after: &ClientManager, addr: PeerAddr)
    requires
        after@ == before@.remove(addr),
    ensures
        !after@.contains_key(addr),
        forall|a: PeerAddr| a != addr ==> (#[trigger] after@.contains_key(a) == before@.contains_key(a)
            && (before@.contains_key(a) ==> after@[a] == before@[a])),
{
}

/// Law: registering a new address and then unregistering it gives back the
/// registry it started from, order included.
pub proof fn lemma_add_then_remove(
    before: &ClientManager,
    added: &ClientManager,
    after: &ClientManager,
    addr: PeerAddr,
    client: Client,
)
    requires
        before.well_formed(),
        !before@.contains_key(addr),
        added@ == before@.insert(addr, client),
        added.addrs() == before.addrs().push(addr),
        after@ == added@.remove(addr),
        after.addrs() == others(added.addrs(), addr),
    ensures
        after@ == before@,
        after.addrs() == before.addrs(),
{
    assert(after@ =~= before@);
    before.lemma_addrs_are_keys();
    before.addrs().lemma_filter_push(addr, not_addr(addr));
    lemma_filter_keeps_all(before.addrs(), not_addr(addr));
}

impl View for ClientManager {
    type V = Map<PeerAddr, Client>;

    closed spec fn view(&self) -> Map<PeerAddr, Client> {
        entries_map(self.clients@)
    }
}

impl ClientManager {
    /// The registered addresses, in registration order.
    pub closed spec fn addrs(&self) -> Seq<PeerAddr> {
        entry_addrs(self.clients@)
    }

    /// No address is registered twice.
    #[verifier::type_invariant]
    pub closed spec fn well_formed(&self) -> bool {
        self.addrs().no_duplicates()
    }

    /// Law: the registered addresses are distinct, and they are exactly the
    /// keys of the registry.
    pub proof fn lemma_addrs_are_keys(&self)
        requires
            self.well_formed(),
        ensures
            self.addrs().no_duplicates(),
            forall|a: PeerAddr| self.addrs().contains(a) <==> #[trigger] self@.contains_key(a),
            self.addrs().len() == self@.len(),
    {
        self.addrs().unique_seq_to_set();
        assert(self.addrs().to_set() =~= self@.dom());
    }

    /// An empty registry.
    pub fn new() -> (res: ClientManager)
        ensures
            res@ == Map::<PeerAddr, Client>::empty(),
            res.addrs() == Seq::<PeerAddr>::empty(),
    {
        let res = ClientManager { clients: Vec::new() };
        assert(res@ =~= Map::<PeerAddr, Client>::empty());
        assert(res.addrs() =~= Seq::<PeerAddr>::empty());
        res
    }

    /// The number of registered clients.
    pub fn len(&self) -> (n: usize)
        ensures
            n == self@.len(),
            n == self.addrs().len(),
    {
        proof { use_type_invariant(&*self); }
        proof { self.lemma_addrs_are_keys(); }
        self.clients.len()
    }

    fn find(&self, addr: &PeerAddr) -> (res: Option<usize>)
        ensures
            match res {
                Some(i) => i < self.clients.len() && self.clients@[i as int].0 == *addr,
                None => !self@.contains_key(*addr),
            },
    {
        proof { use_type_invariant(&*self); }
        let mut i: usize = 0;
        while i < self.clients.len()
            invariant
                i <= self.clients.len(),
                forall|j: int| 0 <= j < i ==> self.clients@[j].0 != *addr,
            decreases self.clients.len() - i,
        {
            if self.clients[i].0 == *addr {
                return Some(i);
            }
            i += 1;
        }
        proof { lemma_entry_absent(self.clients@, *addr); }
        None
    }

    /// Registers `client` under `addr`, replacing a client registered there
    /// before (which keeps its place in the order).
    pub fn add_client(&mut self, addr: PeerAddr, client: Client)
        ensures
            final(self)@ == old(self)@.insert(addr, client),
            final(self).addrs() == (if old(self)@.contains_key(addr) {
                old(self).addrs()
            } else {
                old(self).addrs().push(addr)
            }),
    {
        proof { use_type_invariant(&*self); }
        let ghost old_s = self.clients@;
        match self.find(&addr) {
            Some(i) => {
                proof {
                    lemma_entry_lookup(old_s, i as int);
                    lemma_update_entry(old_s, i as int, (addr, client));
                }
                let mut clients: Vec<(PeerAddr, Client)> = Vec::new();
                std::mem::swap(&mut clients, &mut self.clients);
                clients.set(i, (addr, client));
                self.clients = clients;
            },
            None => {
                let mut clients: Vec<(PeerAddr, Client)> = Vec::new();
                std::mem::swap(&mut clients, &mut self.clients);
                clients.push((addr, client));
                proof {
                    let s = clients@;
                    assert(entry_addrs(s) =~= entry_addrs(old_s).push(addr));
                    assert(!entry_addrs(old_s).contains(addr));
                    assert forall|a: PeerAddr|
                        #[trigger] entries_map(s).contains_key(a) implies entries_map(s)[a]
                        == old(self)@.insert(addr, client)[a] by {
                        lemma_entry_absent(s, a);
                        let w = choose|w: int| 0 <= w < s.len() && s[w].0 == a;
                        lemma_entry_lookup(s, w);
                        lemma_entry_lookup(s, old_s.len() as int);
                        if a != addr {
                            lemma_entry_lookup(old_s, w);
                        }
                    }
                    assert forall|a: PeerAddr|
                        #[trigger] old(self)@.insert(addr, client).contains_key(a) implies entries_map(s).contains_key(a) by {
                        if a == addr {
                            lemma_entry_lookup(s, old_s.len() as int);
                        } else {
                            lemma_entry_absent(old_s, a);
                            let w = choose|w: int| 0 <= w < old_s.len() && old_s[w].0 == a;
                            assert(s[w].0 == a);
                            lemma_entry_absent(s, a);
                        }
                    }
                    assert(entries_map(s) =~= old(self)@.insert(addr, client));
                }
                self.clients = clients;
            },
        }
    }

    /// Unregisters the client at `addr`, if there is one; the others keep
    /// their order.
    pub fn remove_client(&mut self, addr: &PeerAddr)
        ensures
            final(self)@ == old(self)@.remove(*addr),
            final(self).addrs() == others(old(self).addrs(), *addr),
    {
        proof { use_type_invariant(&*self); }
        let ghost old_s = self.clients@;
        match self.find(addr) {
            Some(i) => {
                proof { lemma_entry_lookup(old_s, i as int); }
                let mut clients: Vec<(PeerAddr, Client)> = Vec::new();
                std::mem::swap(&mut clients, &mut self.clients);
                clients.remove(i);
                proof {
                    let s = clients@;
                    assert(entry_addrs(s) =~= entry_addrs(old_s).remove(i as int));
                    assert(entry_addrs(old_s)[i as int] == *addr);
                    lemma_remove_is_filter(entry_addrs(old_s), i as int);
                    assert forall|a: PeerAddr|
                        #[trigger] entries_map(s).contains_key(a) implies entries_map(s)[a]
                        == old(self)@.remove(*addr)[a] by {
                        lemma_entry_absent(s, a);
                        let w = choose|w: int| 0 <= w < s.len() && s[w].0 == a;
                        lemma_entry_lookup(s, w);
                        if w < i {
                            lemma_entry_lookup(old_s, w);
                        } else {
                            lemma_entry_lookup(old_s, w + 1);
                        }
                    }
                    assert forall|a: PeerAddr|
                        #[trigger] old(self)@.remove(*addr).contains_key(a) implies entries_map(s).contains_key(a) by {
                        lemma_entry_absent(old_s, a);
                        let w = choose|w: int| 0 <= w < old_s.len() && old_s[w].0 == a;
                        if w < i {
                            assert(s[w].0 == a);
                        } else {
                            assert(s[w - 1].0 == a);
                        }
                        lemma_entry_absent(s, a);
                    }
                    assert(entries_map(s) =~= old(self)@.remove(*addr));
                    lemma_filter_members(entry_addrs(old_s), not_addr(*addr));
                }
                self.clients = clients;
            },
            None => {
                proof {
                    assert(old(self)@.remove(*addr) =~= old(self)@);
                    assert forall|j: int| 0 <= j < old(self).addrs().len() implies
                        #[trigger] old(self).addrs()[j] != *addr by {
                        lemma_entry_lookup(old_s, j);
                    }
                    lemma_filter_keeps_all(old(self).addrs(), not_addr(*addr));
                }
            },
        }
    }

    /// The client registered at `addr`, if any.
    pub fn get_client(&self, addr: &PeerAddr) -> (res: Option<&Client>)
        ensures
            match res {
                Some(c) => self@.contains_key(*addr) && *c == self@[*addr],
                None => !self@.contains_key(*addr),
            },
    {
        proof { use_type_invariant(&*self); }
        match self.find(addr) {
            Some(i) => {
                proof { lemma_entry_lookup(self.clients@, i as int); }
                Some(&self.clients[i].1)
            },
            None => None,
        }
    }

    /// The registered addresses, in registration order.
    pub fn get_clients(&self) -> (res: Vec<PeerAddr>)
        ensures
            res@ == self.addrs(),
    {
        let mut res: Vec<PeerAddr> = Vec::new();
        let mut i: usize = 0;
        while i < self.clients.len()
            invariant
                i <= self.clients.len(),
                res@ == self.addrs().take(i as int),
            decreases self.clients.len() - i,
        {
            res.push(self.clients[i].0);
            i += 1;
            assert(res@ =~= self.addrs().take(i as int));
        }
        assert(self.addrs().take(i as int) =~= self.addrs());
        res
    }

    /// Records the outcome of an attempt to create a peer connection for the
    /// client at `addr` (nothing happens when no client is registered there).
    pub fn record_peer_connection(&mut self, addr: &PeerAddr, created: bool)
        ensures
            final(self).addrs() == old(self).addrs(),
            final(self)@ == (if old(self)@.contains_key(*addr) {
                old(self)@.insert(*addr, Client {
                    ws: old(self)@[*addr].ws,
                    pc: old(self)@[*addr].pc.after_create(created),
                })
            } else {
                old(self)@
            }),
            old(self)@.contains_key(*addr) ==> final(self)@[*addr].pc.has_peer_connection()
                == (old(self)@[*addr].pc.has_peer_connection() || created),
    {
        proof { use_type_invariant(&*self); }
        let ghost old_s = self.clients@;
        match self.find(addr) {
            Some(i) => {
                let mut clients: Vec<(PeerAddr, Client)> = Vec::new();
                std::mem::swap(&mut clients, &mut self.clients);
                let (a, mut c) = clients.remove(i);
                c.pc.create_peer_connection(created);
                let ghost e = (a, c);
                clients.insert(i, (a, c));
                proof {
                    assert(clients@ =~= old_s.update(i as int, e));
                    lemma_entry_lookup(old_s, i as int);
                    lemma_update_entry(old_s, i as int, e);
                    old_s[i as int].1.pc.lemma_after_create(created);
                }
                self.clients = clients;
            },
            None => {},
        }
    }

    /// A delivery of `text` to every registered client other than the one
    /// at `from`, in registration order.
    pub fn deliveries_except(&self, from: &PeerAddr, text: &String) -> (res: Vec<Delivery>)
        ensures
            delivery_targets(res@) == others(self.addrs(), *from),
            all_carry(res@, text@),
    {
        let mut res: Vec<Delivery> = Vec::new();
        let mut i: usize = 0;
        while i < self.clients.len()
            invariant
                i <= self.clients.len(),
                delivery_targets(res@) == others(self.addrs().take(i as int), *from),
                all_carry(res@, text@),
            decreases self.clients.len() - i,
        {
            let ghost prev = res@;
            let a = self.clients[i].0;
            proof {
                assert(self.addrs().take(i + 1) =~= self.addrs().take(i as int).push(a));
                self.addrs().take(i as int).lemma_filter_push(a, not_addr(*from));
            }
            if a != *from {
                res.push(Delivery { to: a, frame: text.clone() });
                assert(delivery_targets(res@) =~= delivery_targets(prev).push(a));
            }
            i += 1;
        }
        assert(self.addrs().take(i as int) =~= self.addrs());
        res
    }
}

} // verus!
