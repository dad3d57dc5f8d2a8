//! Fan-out primitive: a keyed set of subscribers.
//!
//! Each player maps to the outbound sinks of their open connections; a
//! sink is an opaque handle number owned by the runtime. `notify` never
//! sends here: it only selects the sinks a message is owed to, and the
//! runtime performs the best-effort sends.

use vstd::prelude::*;

verus! {

/// Addressing mode of a notification.
pub enum SendTo {
    /// Every subscriber.
    Everyone,
    /// The named players; with `to_others` also every subscriber that is
    /// not named.
    Players { list: Vec<String>, to_others: bool },
}

pub struct Watchers {
    /// One entry per subscribed player, keys distinct; the payload lists
    /// that player's sinks.
    pub players: Vec<(String, Vec<u64>)>,
}

/// The sinks of every entry, in entry order.
pub open spec fn spec_all_sinks(entries: Seq<(String, Vec<u64>)>) -> Seq<u64>
    decreases entries.len(),
{
    if entries.len() == 0 {
        Seq::empty()
    } else {
        entries[0].1@ + spec_all_sinks(entries.drop_first())
    }
}

/// The sinks recorded for player `p`, or empty when `p` is unknown.
pub open spec fn spec_lookup(entries: Seq<(String, Vec<u64>)>, p: Seq<char>) -> Seq<u64>
    decreases entries.len(),
{
    if entries.len() == 0 {
        Seq::empty()
    } else if entries[0].0@ == p {
        entries[0].1@
    } else {
        spec_lookup(entries.drop_first(), p)
    }
}

/// Whether some entry carries the key `p`.
pub open spec fn spec_has_player(entries: Seq<(String, Vec<u64>)>, p: Seq<char>) -> bool {
    exists|i: int| 0 <= i < entries.len() && #[trigger] entries[i].0@ == p
}

/// Whether the list of names mentions `q`.
pub open spec fn spec_named(list: Seq<String>, q: Seq<char>) -> bool {
    exists|i: int| 0 <= i < list.len() && #[trigger] list[i]@ == q
}

/// The sinks of the named players, list order, unknown names empty.
pub open spec fn spec_list_sinks(entries: Seq<(String, Vec<u64>)>, list: Seq<String>) -> Seq<u64>
    decreases list.len(),
{
    if list.len() == 0 {
        Seq::empty()
    } else {
        spec_list_sinks(entries, list.drop_last()) + spec_lookup(entries, list.last()@)
    }
}

/// The sinks of every entry whose player the list does not name, in
/// entry order.
pub open spec fn spec_other_sinks(entries: Seq<(String, Vec<u64>)>, list: Seq<String>) -> Seq<
    u64,
>
    decreases entries.len(),
{
    if entries.len() == 0 {
        Seq::empty()
    } else {
        spec_other_sinks(entries.drop_last(), list) + if spec_named(list, entries.last().0@) {
            Seq::empty()
        } else {
            entries.last().1@
        }
    }
}

impl Watchers {
    /// Keys are pairwise distinct, and within each entry the sinks are
    /// pairwise distinct: a connection is recorded at most once.
    pub open spec fn wf(self) -> bool {
        &&& forall|i: int, j: int|
            0 <= i < j < self.players@.len() ==> #[trigger] self.players@[i].0@ != #[trigger] self.players@[j].0@
        &&& forall|e: int, a: int, b: int|
            0 <= e < self.players@.len() && 0 <= a < b < self.players@[e].1@.len()
                ==> #[trigger] self.players@[e].1@[a] != #[trigger] self.players@[e].1@[b]
    }

    /// Number of subscribed players.
    pub open spec fn spec_player_count(self) -> int {
        self.players@.len() as int
    }

    pub open spec fn spec_contains(self, p: Seq<char>) -> bool {
        spec_has_player(self.players@, p)
    }

    pub fn new() -> (w: Watchers)
        ensures
            w.wf(),
            w.spec_player_count() == 0,
    {
        Watchers { players: Vec::new() }
    }

    /// Number of subscribed players.
    pub fn player_count(&self) -> (n: usize)
        ensures
            n == self.spec_player_count(),
    {
        self.players.len()
    }

    /// Subscribe `sender` under `player`: appended unless already listed
    /// for that player. Returns whether this was the player's first
    /// subscription. Every other player's sink list stays as it was.
    pub fn add_watcher(&mut self, player: String, sender: u64) -> (first: bool)
        requires
            old(self).wf(),
        ensures
            final(self).wf(),
            first == !old(self).spec_contains(player@),
            final(self).spec_contains(player@),
            spec_lookup(final(self).players@, player@).contains(sender),
            ({
                let before = spec_lookup(old(self).players@, player@);
                let after = spec_lookup(final(self).players@, player@);
                if before.contains(sender) {
                    after == before
                } else {
                    after == before.push(sender)
                }
            }),
            first ==> final(self).spec_player_count() == old(self).spec_player_count() + 1,
            !first ==> final(self).spec_player_count() == old(self).spec_player_count(),
            forall|q: Seq<char>|
                q != player@ ==> #[trigger] spec_lookup(final(self).players@, q) == spec_lookup(
                    old(self).players@,
                    q,
                ),
            forall|q: Seq<char>|
                q != player@ ==> #[trigger] spec_has_player(final(self).players@, q)
                    == spec_has_player(old(self).players@, q),
    {
        let ghost prestate = *self;
        let ghost pre = self.players@;
        let mut i: usize = 0;
        while i < self.players.len()
            invariant
                *self == prestate,
                self.players@ == pre,
                i <= pre.len(),
                forall|k: int| 0 <= k < i ==> #[trigger] pre[k].0@ != player@,
            decreases pre.len() - i,
        {
            if self.players[i].0 == player {
                let mut found = false;
                let sockets_len = self.players[i].1.len();
                let mut j: usize = 0;
                while j < sockets_len
                    invariant
                        self.players@ == pre,
                        i < pre.len(),
                        sockets_len == pre[i as int].1@.len(),
                        found ==> pre[i as int].1@.contains(sender),
                        !found ==> forall|k: int|
                            0 <= k < j ==> #[trigger] pre[i as int].1@[k] != sender,
                        j <= sockets_len,
                    decreases sockets_len - j,
                {
                    if self.players[i].1[j] == sender {
                        found = true;
                    }
                    j += 1;
                }
                if !found {
                    let (name, mut sockets) = self.players.remove(i);
                    sockets.push(sender);
                    self.players.insert(i, (name, sockets));
                    proof {
                        assert(!pre[i as int].1@.contains(sender)) by {
                            if pre[i as int].1@.contains(sender) {
                                let w = choose|k: int|
                                    0 <= k < pre[i as int].1@.len() && pre[i as int].1@[k]
                                        == sender;
                                assert(pre[i as int].1@[w] != sender);
                            }
                        }
                        lemma_lookup_finds(pre, i as int);
                        assert forall|k: int|
                            0 <= k < self.players@.len() && k != i as int implies #[trigger] self.players@[k]
                            == pre[k] by {
                            assert(self.players@ == pre.remove(i as int).insert(
                                i as int,
                                self.players@[i as int],
                            ));
                        }
                        assert forall|k: int|
                            0 <= k < self.players@.len() implies #[trigger] self.players@[k].0@
                            == pre[k].0@ by {
                            assert(self.players@ == pre.remove(i as int).insert(
                                i as int,
                                self.players@[i as int],
                            ));
                        }
                        assert forall|a: int, b: int|
                            0 <= a < b < self.players@.len() implies #[trigger] self.players@[a].0@
                            != #[trigger] self.players@[b].0@ by {
                            assert(pre[a].0@ != pre[b].0@);
                        }
                        assert(self.players@[i as int].1@ == pre[i as int].1@.push(sender));
                        assert forall|e: int, a: int, b: int|
                            0 <= e < self.players@.len() && 0 <= a < b
                                < self.players@[e].1@.len() implies #[trigger] self.players@[e].1@[a]
                            != #[trigger] self.players@[e].1@[b] by {
                            if e != i as int {
                                assert(self.players@[e] == pre[e]);
                            } else {
                                let sl = pre[i as int].1@;
                                if b < sl.len() {
                                    assert(sl[a] != sl[b]);
                                } else {
                                    assert(self.players@[e].1@[b] == sender);
                                    assert(self.players@[e].1@[a] == sl[a]);
                                    if sl[a] == sender {
                                        assert(sl.contains(sender));
                                    }
                                }
                            }
                        }
                        lemma_lookup_finds(self.players@, i as int);
                        let sl = self.players@[i as int].1@;
                        assert(sl[sl.len() - 1] == sender);
                        assert(sl.contains(sender));
                        assert forall|q: Seq<char>|
                            q != player@ implies #[trigger] spec_lookup(self.players@, q)
                            == spec_lookup(pre, q) by {
                            lemma_lookup_same_keys(pre, self.players@, i as int, q);
                        }
                        assert forall|q: Seq<char>|
                            q != player@ implies #[trigger] spec_has_player(self.players@, q)
                            == spec_has_player(pre, q) by {
                            if spec_has_player(pre, q) {
                                let w = choose|k: int|
                                    0 <= k < pre.len() && #[trigger] pre[k].0@ == q;
                                assert(self.players@[w].0@ == q);
                            }
                            if spec_has_player(self.players@, q) {
                                let w = choose|k: int|
                                    0 <= k < self.players@.len()
                                        && #[trigger] self.players@[k].0@ == q;
                                assert(pre[w].0@ == q);
                            }
                        }
                    }
                } else {
                    proof {
                        lemma_lookup_finds(self.players@, i as int);
                        assert(pre[i as int].1@.contains(sender));
                    }
                }
                proof {
                    assert(pre[i as int].0@ == player@);
                    lemma_has_witness(self.players@, i as int);
                }
                return false;
            }
            i += 1;
        }
        self.players.push((player, Vec::new()));
        let last = self.players.len() - 1;
        let (name, mut sockets) = self.players.remove(last);
        sockets.push(sender);
        self.players.push((name, sockets));
        proof {
            assert forall|a: int, b: int|
                0 <= a < b < self.players@.len() implies #[trigger] self.players@[a].0@
                != #[trigger] self.players@[b].0@ by {
                if b < pre.len() {
                    assert(pre[a].0@ != pre[b].0@);
                } else {
                    assert(self.players@[b].0@ == player@);
                    assert(pre[a].0@ != player@);
                }
            }
            lemma_has_witness(self.players@, last as int);
            lemma_lookup_finds(self.players@, last as int);
            let sl = self.players@[last as int].1@;
            assert(sl =~= Seq::<u64>::empty().push(sender));
            assert(sl[0] == sender);
            assert(sl.contains(sender));
            assert(!spec_has_player(pre, player@));
            lemma_lookup_missing(pre, player@);
            assert(spec_lookup(self.players@, player@) == spec_lookup(pre, player@).push(sender));
            assert(self.players@ =~= pre.push(self.players@[last as int]));
            assert forall|q: Seq<char>|
                q != player@ implies #[trigger] spec_lookup(self.players@, q) == spec_lookup(
                pre,
                q,
            ) by {
                lemma_lookup_push(pre, self.players@[last as int], q);
            }
            assert forall|e: int, a: int, b: int|
                0 <= e < self.players@.len() && 0 <= a < b
                    < self.players@[e].1@.len() implies #[trigger] self.players@[e].1@[a]
                != #[trigger] self.players@[e].1@[b] by {
                if e < pre.len() {
                    assert(self.players@[e] == pre[e]);
                } else {
                    assert(self.players@[e].1@.len() == 1);
                }
            }
            assert forall|q: Seq<char>|
                q != player@ implies #[trigger] spec_has_player(self.players@, q) == spec_has_player(
                pre,
                q,
            ) by {
                if spec_has_player(pre, q) {
                    let w = choose|k: int| 0 <= k < pre.len() && #[trigger] pre[k].0@ == q;
                    assert(self.players@[w].0@ == q);
                }
                if spec_has_player(self.players@, q) {
                    let w = choose|k: int|
                        0 <= k < self.players@.len() && #[trigger] self.players@[k].0@ == q;
                    assert(w < pre.len());
                    assert(pre[w].0@ == q);
                }
            }
        }
        true
    }

    /// Drop every sink of `player`; the dropped sinks are handed back.
    /// Every other player's sink list stays as it was.
    pub fn remove_watcher(&mut self, player: &String) -> (removed: Option<Vec<u64>>)
        requires
            old(self).wf(),
        ensures
            final(self).wf(),
            !final(self).spec_contains(player@),
            removed is Some <==> old(self).spec_contains(player@),
            removed matches Some(v) ==> v@ == spec_lookup(old(self).players@, player@),
            removed is Some ==> final(self).spec_player_count() == old(
                self,
            ).spec_player_count() - 1,
            removed is None ==> *final(self) == *old(self),
            forall|q: Seq<char>|
                q != player@ ==> #[trigger] spec_lookup(final(self).players@, q) == spec_lookup(
                    old(self).players@,
                    q,
                ),
            forall|q: Seq<char>|
                q != player@ ==> #[trigger] spec_has_player(final(self).players@, q)
                    == spec_has_player(old(self).players@, q),
    {
        let ghost prestate = *self;
        let ghost pre = self.players@;
        let mut i: usize = 0;
        while i < self.players.len()
            invariant
                *self == prestate,
                self.players@ == pre,
                i <= pre.len(),
                forall|k: int| 0 <= k < i ==> #[trigger] pre[k].0@ != player@,
            decreases pre.len() - i,
        {
            if self.players[i].0 == *player {
                let entry = self.players.remove(i);
                proof {
                    assert forall|a: int, b: int|
                        0 <= a < b < self.players@.len() implies #[trigger] self.players@[a].0@
                        != #[trigger] self.players@[b].0@ by {
                        let a0 = if a < i as int {
                            a
                        } else {
                            a + 1
                        };
                        let b0 = if b < i as int {
                            b
                        } else {
                            b + 1
                        };
                        assert(pre[a0].0@ != pre[b0].0@);
                    }
                    assert forall|k: int|
                        0 <= k < self.players@.len() implies #[trigger] self.players@[k].0@
                        != player@ by {
                        let k0 = if k < i as int {
                            k
                        } else {
                            k + 1
                        };
                        assert(pre[k0].0@ == self.players@[k].0@);
                        if k0 != i as int {
                            assert(pre[k0].0@ != pre[i as int].0@);
                        }
                    }
                    assert forall|q: Seq<char>|
                        q != player@ implies #[trigger] spec_has_player(self.players@, q)
                        == spec_has_player(pre, q) by {
                        if spec_has_player(pre, q) {
                            let w = choose|k: int| 0 <= k < pre.len() && #[trigger] pre[k].0@ == q;
                            if w < i as int {
                                assert(self.players@[w].0@ == q);
                            } else {
                                assert(w != i as int);
                                assert(self.players@[w - 1].0@ == q);
                            }
                        }
                        if spec_has_player(self.players@, q) {
                            let w = choose|k: int|
                                0 <= k < self.players@.len() && #[trigger] self.players@[k].0@
                                    == q;
                            if w < i as int {
                                assert(pre[w].0@ == q);
                            } else {
                                assert(pre[w + 1].0@ == q);
                            }
                        }
                    }
                    lemma_lookup_finds(pre, i as int);
                    assert(entry.1@ == pre[i as int].1@);
                    assert(self.players@ == pre.remove(i as int));
                    assert forall|q: Seq<char>|
                        q != player@ implies #[trigger] spec_lookup(self.players@, q)
                        == spec_lookup(pre, q) by {
                        lemma_lookup_remove(pre, i as int, q);
                    }
                    assert forall|e: int, a: int, b: int|
                        0 <= e < self.players@.len() && 0 <= a < b
                            < self.players@[e].1@.len() implies #[trigger] self.players@[e].1@[a]
                        != #[trigger] self.players@[e].1@[b] by {
                        let e0 = if e < i as int {
                            e
                        } else {
                            e + 1
                        };
                        assert(self.players@[e] == pre[e0]);
                        assert(pre[e0].1@[a] != pre[e0].1@[b]);
                    }
                }
                return Some(entry.1);
            }
            i += 1;
        }
        None
    }

    /// The sinks recorded for one player, in order.
    pub fn sinks_of(&self, player: &String) -> (r: Vec<u64>)
        requires
            self.wf(),
        ensures
            r@ == spec_lookup(self.players@, player@),
    {
        let mut i: usize = 0;
        while i < self.players.len()
            invariant
                i <= self.players@.len(),
                forall|k: int| 0 <= k < i ==> #[trigger] self.players@[k].0@ != player@,
            decreases self.players@.len() - i,
        {
            if self.players[i].0 == *player {
                proof {
                    lemma_lookup_finds(self.players@, i as int);
                }
                let mut r: Vec<u64> = Vec::new();
                let n = self.players[i].1.len();
                let mut j: usize = 0;
                while j < n
                    invariant
                        i < self.players@.len(),
                        j <= n,
                        n == self.players@[i as int].1@.len(),
                        r@ == self.players@[i as int].1@.take(j as int),
                    decreases n - j,
                {
                    r.push(self.players[i].1[j]);
                    proof {
                        assert(self.players@[i as int].1@.take(j + 1)
                            == self.players@[i as int].1@.take(j as int).push(
                            self.players@[i as int].1@[j as int],
                        ));
                    }
                    j += 1;
                }
                proof {
                    assert(self.players@[i as int].1@.take(n as int)
                        == self.players@[i as int].1@);
                }
                return r;
            }
            i += 1;
        }
        proof {
            lemma_lookup_missing(self.players@, player@);
        }
        Vec::new()
    }

    /// The sinks a notification with this addressing is owed to:
    /// every sink in entry order for `Everyone`; for `Players`, the
    /// named players' sinks in list order, and with `to_others` also
    /// the sinks of every entry whose player is not named.
    pub fn recipients(&self, send_to: &SendTo) -> (r: Vec<u64>)
        requires
            self.wf(),
        ensures
            (send_to is Everyone ==> r@ == spec_all_sinks(self.players@)),
            (send_to matches SendTo::Players { list, to_others } ==> r@ == spec_list_sinks(
                self.players@,
                list@,
            ) + (if to_others == true {
                spec_other_sinks(self.players@, list@)
            } else {
                Seq::<u64>::empty()
            })),
    {
        match send_to {
            SendTo::Everyone => {
                let mut out: Vec<u64> = Vec::new();
                let mut i: usize = 0;
                while i < self.players.len()
                    invariant
                        i <= self.players@.len(),
                        out@ == spec_all_sinks(self.players@.take(i as int)),
                    decreases self.players@.len() - i,
                {
                    let mut j: usize = 0;
                    let n = self.players[i].1.len();
                    while j < n
                        invariant
                            i < self.players@.len(),
                            j <= n,
                            n == self.players@[i as int].1@.len(),
                            out@ == spec_all_sinks(self.players@.take(i as int))
                                + self.players@[i as int].1@.take(j as int),
                        decreases n - j,
                    {
                        out.push(self.players[i].1[j]);
                        proof {
                            assert(self.players@[i as int].1@.take(j + 1)
                                == self.players@[i as int].1@.take(j as int).push(
                                self.players@[i as int].1@[j as int],
                            ));
                        }
                        j += 1;
                    }
                    proof {
                        assert(self.players@[i as int].1@.take(n as int)
                            == self.players@[i as int].1@);
                        lemma_all_sinks_take_step(self.players@, i as int);
                    }
                    i += 1;
                }
                proof {
                    assert(self.players@.take(self.players@.len() as int) == self.players@);
                }
                out
            },
            SendTo::Players { list, to_others } => {
                let mut out: Vec<u64> = Vec::new();
                let mut i: usize = 0;
                while i < list.len()
                    invariant
                        self.wf(),
                        i <= list@.len(),
                        out@ == spec_list_sinks(self.players@, list@.take(i as int)),
                    decreases list@.len() - i,
                {
                    let sinks = self.sinks_of(&list[i]);
                    let ghost base = out@;
                    let mut j: usize = 0;
                    while j < sinks.len()
                        invariant
                            j <= sinks@.len(),
                            out@ == base + sinks@.take(j as int),
                        decreases sinks@.len() - j,
                    {
                        out.push(sinks[j]);
                        proof {
                            assert(sinks@.take(j + 1) == sinks@.take(j as int).push(
                                sinks@[j as int],
                            ));
                        }
                        j += 1;
                    }
                    proof {
                        assert(sinks@.take(sinks@.len() as int) == sinks@);
                        assert(list@.take(i + 1).drop_last() =~= list@.take(i as int));
                        assert(list@.take(i + 1).last() == list@[i as int]);
                    }
                    i += 1;
                }
                proof {
                    assert(list@.take(list@.len() as int) == list@);
                }
                if *to_others {
                    let ghost named_part = out@;
                    let mut k: usize = 0;
                    proof {
                        assert(self.players@.take(0) =~= Seq::<(String, Vec<u64>)>::empty());
                        assert(out@ =~= named_part + spec_other_sinks(
                            self.players@.take(0),
                            list@,
                        ));
                    }
                    while k < self.players.len()
                        invariant
                            self.wf(),
                            k <= self.players@.len(),
                            out@ == named_part + spec_other_sinks(
                                self.players@.take(k as int),
                                list@,
                            ),
                        decreases self.players@.len() - k,
                    {
                        let mut named = false;
                        let mut i2: usize = 0;
                        while i2 < list.len()
                            invariant
                                self.wf(),
                                k < self.players@.len(),
                                i2 <= list@.len(),
                                named ==> spec_named(list@, self.players@[k as int].0@),
                                !named ==> forall|w: int|
                                    0 <= w < i2 ==> #[trigger] list@[w]@
                                        != self.players@[k as int].0@,
                            decreases list@.len() - i2,
                        {
                            if self.players[k].0 == list[i2] {
                                named = true;
                            }
                            i2 += 1;
                        }
                        proof {
                            if !named {
                                assert(!spec_named(list@, self.players@[k as int].0@)) by {
                                    if spec_named(list@, self.players@[k as int].0@) {
                                        let w = choose|w: int|
                                            0 <= w < list@.len() && #[trigger] list@[w]@
                                                == self.players@[k as int].0@;
                                        assert(list@[w]@ != self.players@[k as int].0@);
                                    }
                                }
                            }
                        }
                        let ghost before_entry = out@;
                        if !named {
                            let mut j: usize = 0;
                            let n = self.players[k].1.len();
                            while j < n
                                invariant
                                    self.wf(),
                                    k < self.players@.len(),
                                    n == self.players@[k as int].1@.len(),
                                    j <= n,
                                    out@ == before_entry + self.players@[k as int].1@.take(
                                        j as int,
                                    ),
                                decreases n - j,
                            {
                                out.push(self.players[k].1[j]);
                                proof {
                                    assert(self.players@[k as int].1@.take(j + 1)
                                        == self.players@[k as int].1@.take(j as int).push(
                                        self.players@[k as int].1@[j as int],
                                    ));
                                }
                                j += 1;
                            }
                            proof {
                                assert(self.players@[k as int].1@.take(n as int)
                                    == self.players@[k as int].1@);
                            }
                        }
                        proof {
                            assert(self.players@.take(k + 1).drop_last() =~= self.players@.take(
                                k as int,
                            ));
                            assert(self.players@.take(k + 1).last()
                                == self.players@[k as int]);
                        }
                        k += 1;
                    }
                    proof {
                        assert(self.players@.take(self.players@.len() as int)
                            == self.players@);
                    }
                } else {
                    proof {
                        assert(spec_list_sinks(self.players@, list@) + Seq::<u64>::empty()
                            =~= spec_list_sinks(self.players@, list@));
                    }
                }
                out
            },
        }
    }
}

/// An entry with key `players[i].0` makes `spec_has_player` true.
proof fn lemma_has_witness(entries: Seq<(String, Vec<u64>)>, i: int)
    requires
        0 <= i < entries.len(),
    ensures
        spec_has_player(entries, entries[i].0@),
{
}

/// `spec_lookup` of a key no entry carries is empty.
proof fn lemma_lookup_missing(entries: Seq<(String, Vec<u64>)>, p: Seq<char>)
    requires
        forall|k: int| 0 <= k < entries.len() ==> #[trigger] entries[k].0@ != p,
    ensures
        spec_lookup(entries, p) == Seq::<u64>::empty(),
    decreases entries.len(),
{
    if entries.len() > 0 {
        lemma_lookup_missing(entries.drop_first(), p);
    }
}

/// Appending an entry with another key leaves a lookup alone.
proof fn lemma_lookup_push(entries: Seq<(String, Vec<u64>)>, x: (String, Vec<u64>), q: Seq<char>)
    requires
        x.0@ != q,
    ensures
        spec_lookup(entries.push(x), q) == spec_lookup(entries, q),
    decreases entries.len(),
{
    if entries.len() == 0 {
        assert(entries.push(x)[0] == x);
        assert(entries.push(x).drop_first() =~= Seq::<(String, Vec<u64>)>::empty());
        assert(spec_lookup(Seq::<(String, Vec<u64>)>::empty(), q) == Seq::<u64>::empty());
        assert(spec_lookup(entries, q) == Seq::<u64>::empty());
    } else {
        assert(entries.push(x)[0] == entries[0]);
        assert(entries.push(x).drop_first() =~= entries.drop_first().push(x));
        lemma_lookup_push(entries.drop_first(), x, q);
    }
}

/// Changing one entry's payload leaves every other key's lookup alone.
proof fn lemma_lookup_same_keys(
    e1: Seq<(String, Vec<u64>)>,
    e2: Seq<(String, Vec<u64>)>,
    i: int,
    q: Seq<char>,
)
    requires
        e1.len() == e2.len(),
        0 <= i < e1.len(),
        forall|k: int| 0 <= k < e1.len() && k != i ==> #[trigger] e2[k] == e1[k],
        e2[i].0@ == e1[i].0@,
        q != e1[i].0@,
    ensures
        spec_lookup(e2, q) == spec_lookup(e1, q),
    decreases e1.len(),
{
    if i == 0 {
        assert(e2.drop_first() =~= e1.drop_first());
    } else {
        assert(e2[0] == e1[0]);
        if e1[0].0@ != q {
            assert(e2.drop_first().len() == e1.drop_first().len());
            assert forall|k: int|
                0 <= k < e1.drop_first().len() && k != i - 1 implies #[trigger] e2.drop_first()[k]
                == e1.drop_first()[k] by {
                assert(e2[k + 1] == e1[k + 1]);
            }
            lemma_lookup_same_keys(e1.drop_first(), e2.drop_first(), i - 1, q);
        }
    }
}

/// Dropping one entry leaves every other key's lookup alone.
proof fn lemma_lookup_remove(entries: Seq<(String, Vec<u64>)>, i: int, q: Seq<char>)
    requires
        0 <= i < entries.len(),
        q != entries[i].0@,
    ensures
        spec_lookup(entries.remove(i), q) == spec_lookup(entries, q),
    decreases entries.len(),
{
    if i == 0 {
        assert(entries.remove(0) =~= entries.drop_first());
    } else {
        assert(entries.remove(i)[0] == entries[0]);
        if entries[0].0@ != q {
            assert(entries.remove(i).drop_first() =~= entries.drop_first().remove(i - 1));
            lemma_lookup_remove(entries.drop_first(), i - 1, q);
        }
    }
}

/// Under distinct keys, `spec_lookup` of entry `i`'s key finds entry `i`.
proof fn lemma_lookup_finds(entries: Seq<(String, Vec<u64>)>, i: int)
    requires
        0 <= i < entries.len(),
        forall|a: int, b: int|
            0 <= a < b < entries.len() ==> #[trigger] entries[a].0@ != #[trigger] entries[b].0@,
    ensures
        spec_lookup(entries, entries[i].0@) == entries[i].1@,
    decreases entries.len(),
{
    if i > 0 {
        assert(entries[0].0@ != entries[i].0@);
        lemma_lookup_finds(entries.drop_first(), i - 1);
    }
}

/// Appending entry `i`'s sinks extends the flattened prefix by one entry.
proof fn lemma_all_sinks_take_step(entries: Seq<(String, Vec<u64>)>, i: int)
    requires
        0 <= i < entries.len(),
    ensures
        spec_all_sinks(entries.take(i + 1)) == spec_all_sinks(entries.take(i)) + entries[i].1@,
    decreases i,
{
    if i == 0 {
        let e = Seq::<(String, Vec<u64>)>::empty();
        assert(entries.take(1).drop_first() =~= e);
        assert(spec_all_sinks(e) == Seq::<u64>::empty());
        assert(entries.take(1)[0] == entries[0]);
        assert(spec_all_sinks(entries.take(1)) =~= entries[0].1@);
        assert(entries.take(0) =~= e);
        assert(spec_all_sinks(entries.take(0)) + entries[0].1@ =~= entries[0].1@);
    } else {
        lemma_all_sinks_take_step(entries.drop_first(), i - 1);
        assert(entries.take(i + 1).drop_first() =~= entries.drop_first().take(i));
        assert(entries.take(i).drop_first() =~= entries.drop_first().take(i - 1));
        assert(entries.take(i + 1)[0] == entries[0]);
        assert(entries.take(i)[0] == entries[0]);
        assert(spec_all_sinks(entries.take(i + 1)) == entries[0].1@ + spec_all_sinks(
            entries.drop_first().take(i),
        ));
        assert(entries.drop_first()[i - 1] == entries[i]);
        assert(entries[0].1@ + (spec_all_sinks(entries.drop_first().take(i - 1)) + entries[i].1@)
            =~= (entries[0].1@ + spec_all_sinks(entries.drop_first().take(i - 1))) + entries[i].1@);
    }
}

} // verus!
