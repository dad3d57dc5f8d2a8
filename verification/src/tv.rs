//! The TV aggregator: a capped window onto the in-progress games.

use vstd::prelude::*;
use crate::messages::{
    AllGames, MessageType, NewTvGame, NewTvMove, RedirectToPlacement, RemoveTvGame,
};
use crate::watchers::Watchers;

verus! {

/// Mailbox of the TV aggregator. Sinks are the runtime's handles.
pub enum TvMessage {
    Leave(String),
    Join(String, u64),
    Add(RedirectToPlacement),
    Move { id: String, sfen: String, first_move_error: bool },
    Remove { id: String },
    GetTv(String),
}

/// Whether some card carries the id `u`.
pub open spec fn spec_has_card(cards: Seq<RedirectToPlacement>, u: Seq<char>) -> bool {
    exists|i: int| 0 <= i < cards.len() && #[trigger] cards[i].id@ == u
}

/// The first card carrying the id `u`, if any.
pub open spec fn spec_find_card(cards: Seq<RedirectToPlacement>, u: Seq<char>) -> Option<
    RedirectToPlacement,
>
    decreases cards.len(),
{
    if cards.len() == 0 {
        None
    } else if cards[0].id@ == u {
        Some(cards[0])
    } else {
        spec_find_card(cards.drop_first(), u)
    }
}

/// Under distinct ids, the card found for entry `i`'s id is entry `i`.
proof fn lemma_find_card(cards: Seq<RedirectToPlacement>, i: int)
    requires
        0 <= i < cards.len(),
        forall|a: int, b: int|
            0 <= a < b < cards.len() ==> #[trigger] cards[a].id@ != #[trigger] cards[b].id@,
    ensures
        spec_find_card(cards, cards[i].id@) == Some(cards[i]),
    decreases cards.len(),
{
    if i > 0 {
        assert(cards[0].id@ != cards[i].id@);
        lemma_find_card(cards.drop_first(), i - 1);
    }
}

/// Changing one card's payload leaves every other id's find alone.
proof fn lemma_find_card_same_keys(
    c1: Seq<RedirectToPlacement>,
    c2: Seq<RedirectToPlacement>,
    i: int,
    q: Seq<char>,
)
    requires
        c1.len() == c2.len(),
        0 <= i < c1.len(),
        forall|k: int| 0 <= k < c1.len() && k != i ==> #[trigger] c2[k] == c1[k],
        c2[i].id@ == c1[i].id@,
        q != c1[i].id@,
    ensures
        spec_find_card(c2, q) == spec_find_card(c1, q),
    decreases c1.len(),
{
    if i == 0 {
        assert(c2.drop_first() =~= c1.drop_first());
    } else {
        assert(c2[0] == c1[0]);
        if c1[0].id@ != q {
            assert forall|k: int|
                0 <= k < c1.drop_first().len() && k != i - 1 implies #[trigger] c2.drop_first()[k]
                == c1.drop_first()[k] by {
                assert(c2[k + 1] == c1[k + 1]);
            }
            lemma_find_card_same_keys(c1.drop_first(), c2.drop_first(), i - 1, q);
        }
    }
}

pub struct TvState {
    /// TV-room subscribers.
    pub watchers: Watchers,
    /// The window: at most 10 in-progress games, ids distinct.
    pub games: Vec<RedirectToPlacement>,
}

impl TvState {
    pub open spec fn wf(self) -> bool {
        &&& self.watchers.wf()
        &&& self.games@.len() <= 10
        &&& forall|i: int, j: int|
            0 <= i < j < self.games@.len() ==> #[trigger] self.games@[i].id@ != #[trigger] self.games@[j].id@
    }

    pub fn new() -> (t: TvState)
        ensures
            t.wf(),
            t.games@.len() == 0,
    {
        TvState { watchers: Watchers::new(), games: Vec::new() }
    }

    pub fn handle_join(&mut self, player: String, sink: u64)
        requires
            old(self).wf(),
        ensures
            final(self).wf(),
            final(self).watchers.spec_contains(player@),
            final(self).games == old(self).games,
    {
        let _ = self.watchers.add_watcher(player, sink);
    }

    pub fn handle_leave(&mut self, player: &String)
        requires
            old(self).wf(),
        ensures
            final(self).wf(),
            !final(self).watchers.spec_contains(player@),
            final(self).games == old(self).games,
    {
        let _ = self.watchers.remove_watcher(player);
    }

    /// Show a game, while there is room: a known id is refreshed, a
    /// new one fills a free slot. The card is broadcast to the room.
    pub fn handle_add(&mut self, placement: RedirectToPlacement) -> (r: Option<NewTvGame>)
        requires
            old(self).wf(),
        ensures
            final(self).wf(),
            old(self).games@.len() < 10 ==> {
                &&& spec_has_card(final(self).games@, placement.id@)
                &&& (r matches Some(msg) ==> msg.t == MessageType::AddTvGame && msg.game
                    == placement)
                &&& r is Some
            },
            old(self).games@.len() >= 10 ==> r is None && *final(self) == *old(self),
    {
        if self.games.len() >= 10 {
            return None;
        }
        let ghost pre = self.games@;
        let mut i: usize = 0;
        while i < self.games.len()
            invariant
                self.games@ == pre,
                self.watchers == old(self).watchers,
                i <= pre.len(),
                forall|k: int| 0 <= k < i ==> #[trigger] pre[k].id@ != placement.id@,
            decreases pre.len() - i,
        {
            if self.games[i].id == placement.id {
                let msg = NewTvGame { t: MessageType::AddTvGame, game: placement.duplicate() };
                let card = self.games.remove(i);
                self.games.insert(i, msg.game.duplicate());
                proof {
                    assert(self.games@ == pre.remove(i as int).insert(
                        i as int,
                        self.games@[i as int],
                    ));
                    assert(self.games@[i as int].id@ == placement.id@);
                    assert forall|a: int, b: int|
                        0 <= a < b < self.games@.len() implies #[trigger] self.games@[a].id@
                        != #[trigger] self.games@[b].id@ by {
                        assert(pre[a].id@ != pre[b].id@);
                        assert(self.games@[a].id@ == pre[a].id@);
                        assert(self.games@[b].id@ == pre[b].id@);
                    }
                }
                return Some(msg);
            }
            i += 1;
        }
        let msg = NewTvGame { t: MessageType::AddTvGame, game: placement.duplicate() };
        self.games.push(placement);
        proof {
            assert(self.games@[pre.len() as int].id@ == msg.game.id@);
            assert forall|a: int, b: int|
                0 <= a < b < self.games@.len() implies #[trigger] self.games@[a].id@
                != #[trigger] self.games@[b].id@ by {
                if b < pre.len() {
                    assert(pre[a].id@ != pre[b].id@);
                } else {
                    assert(pre[a].id@ != msg.game.id@);
                }
            }
        }
        Some(msg)
    }

    /// A move on a shown game: the kept card takes the new position,
    /// every other card stays, and the room is told; a first-move
    /// error asks for the game's removal right after.
    pub fn handle_move(&mut self, id: &String, sfen: String, first_move_error: bool) -> (r: Option<
        (NewTvMove, bool),
    >)
        requires
            old(self).wf(),
        ensures
            final(self).wf(),
            r is Some <==> spec_has_card(old(self).games@, id@),
            r matches Some((msg, remove_after)) ==> msg.t == MessageType::NewTvMove && msg.game@
                == id@ && msg.game_move@ == sfen@ && remove_after == first_move_error,
            r is Some ==> ({
                let before = spec_find_card(old(self).games@, id@);
                let after = spec_find_card(final(self).games@, id@);
                &&& before is Some
                &&& after matches Some(c) && c.sfen@ == sfen@ && c == (RedirectToPlacement {
                    sfen: c.sfen,
                    ..before->0
                })
            }),
            r is Some ==> final(self).games@.len() == old(self).games@.len(),
            forall|q: Seq<char>|
                q != id@ ==> #[trigger] spec_find_card(final(self).games@, q) == spec_find_card(
                    old(self).games@,
                    q,
                ),
            final(self).watchers == old(self).watchers,
            r is None ==> *final(self) == *old(self),
    {
        let ghost prestate = *self;
        let ghost pre = self.games@;
        let mut i: usize = 0;
        while i < self.games.len()
            invariant
                *self == prestate,
                i <= pre.len(),
                forall|k: int| 0 <= k < i ==> #[trigger] pre[k].id@ != id@,
            decreases pre.len() - i,
        {
            if self.games[i].id == *id {
                let mut card = self.games.remove(i);
                card.sfen = sfen.clone();
                self.games.insert(i, card);
                proof {
                    lemma_find_card(pre, i as int);
                    assert forall|k: int|
                        0 <= k < self.games@.len() && k != i as int implies #[trigger] self.games@[k]
                        == pre[k] by {
                        assert(self.games@ == pre.remove(i as int).insert(
                            i as int,
                            self.games@[i as int],
                        ));
                    }
                    assert(self.games@[i as int].id@ == pre[i as int].id@);
                    assert(self.games@[i as int].sfen@ == sfen@);
                    assert(self.games@[i as int] == (RedirectToPlacement {
                        sfen: self.games@[i as int].sfen,
                        ..pre[i as int]
                    }));
                    assert forall|a: int, b: int|
                        0 <= a < b < self.games@.len() implies #[trigger] self.games@[a].id@
                        != #[trigger] self.games@[b].id@ by {
                        assert(pre[a].id@ != pre[b].id@);
                        assert(self.games@[a].id@ == pre[a].id@);
                        assert(self.games@[b].id@ == pre[b].id@);
                    }
                    lemma_find_card(self.games@, i as int);
                    assert forall|q: Seq<char>|
                        q != id@ implies #[trigger] spec_find_card(self.games@, q)
                        == spec_find_card(pre, q) by {
                        lemma_find_card_same_keys(pre, self.games@, i as int, q);
                    }
                }
                let msg = NewTvMove {
                    t: MessageType::NewTvMove,
                    game: id.clone(),
                    game_move: sfen,
                };
                return Some((msg, first_move_error));
            }
            i += 1;
        }
        None
    }

    /// Drop a game from the window and tell the room, whether or not
    /// it was shown.
    pub fn handle_remove(&mut self, id: &String) -> (msg: RemoveTvGame)
        requires
            old(self).wf(),
        ensures
            final(self).wf(),
            !spec_has_card(final(self).games@, id@),
            msg.t == MessageType::RemoveTVGame,
            msg.game@ == id@,
    {
        let ghost prestate = *self;
        let ghost pre = self.games@;
        let mut i: usize = 0;
        while i < self.games.len()
            invariant
                *self == prestate,
                i <= pre.len(),
                forall|k: int| 0 <= k < i ==> #[trigger] pre[k].id@ != id@,
            decreases pre.len() - i,
        {
            if self.games[i].id == *id {
                self.games.remove(i);
                proof {
                    assert forall|a: int, b: int|
                        0 <= a < b < self.games@.len() implies #[trigger] self.games@[a].id@
                        != #[trigger] self.games@[b].id@ by {
                        let a0 = if a < i as int {
                            a
                        } else {
                            a + 1
                        };
                        let b0 = if b < i as int {
                            b
                        } else {
                            b + 1
                        };
                        assert(pre[a0].id@ != pre[b0].id@);
                    }
                    assert forall|k: int|
                        0 <= k < self.games@.len() implies #[trigger] self.games@[k].id@
                        != id@ by {
                        let k0 = if k < i as int {
                            k
                        } else {
                            k + 1
                        };
                        assert(pre[k0].id@ == self.games@[k].id@);
                        if k0 != i as int {
                            assert(pre[k0].id@ != pre[i as int].id@);
                        }
                    }
                }
                return RemoveTvGame { t: MessageType::RemoveTVGame, game: id.clone() };
            }
            i += 1;
        }
        RemoveTvGame { t: MessageType::RemoveTVGame, game: id.clone() }
    }

    /// The whole window, owed to one observer who asked for it.
    pub fn handle_get_tv(&self) -> (msg: AllGames)
        requires
            self.wf(),
        ensures
            msg.t == MessageType::GetTv,
            msg.games@.len() == self.games@.len(),
            forall|i: int| 0 <= i < self.games@.len() ==> #[trigger] msg.games@[i] == self.games@[i],
    {
        let mut games: Vec<RedirectToPlacement> = Vec::new();
        let mut i: usize = 0;
        while i < self.games.len()
            invariant
                i <= self.games@.len(),
                games@.len() == i,
                forall|k: int| 0 <= k < i ==> #[trigger] games@[k] == self.games@[k],
            decreases self.games@.len() - i,
        {
            games.push(self.games[i].duplicate());
            i += 1;
        }
        AllGames { t: MessageType::GetTv, games }
    }
}

} // verus!
