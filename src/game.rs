use vstd::prelude::*;

verus! {

/// The verdict of one game from the first player's side:
/// 1 if it holds more fields, -1 if fewer, 0 on a draw.
pub open spec fn verdict(first: u8, second: u8) -> i32 {
    if first > second {
        1i32
    } else if first < second {
        -1i32
    } else {
        0i32
    }
}

/// Adds one game to a tally of (wins, draws, losses) of the first player.
pub open spec fn tally_one(t: (nat, nat, nat), first: u8, second: u8) -> (nat, nat, nat) {
    if first > second {
        (t.0 + 1, t.1, t.2)
    } else if first < second {
        (t.0, t.1, t.2 + 1)
    } else {
        (t.0, t.1 + 1, t.2)
    }
}

/// The tally of (wins, draws, losses) of the first player over a sequence of games,
/// each given as the fields that the two players hold at its end.
pub open spec fn tally(games: Seq<(u8, u8)>) -> (nat, nat, nat)
    decreases games.len(),
{
    if games.len() == 0 {
        (0, 0, 0)
    } else {
        let last = games.last();
        tally_one(tally(games.drop_last()), last.0, last.1)
    }
}

proof fn lemma_tally_bounded(games: Seq<(u8, u8)>)
    ensures
        tally(games).0 + tally(games).1 + tally(games).2 == games.len(),
    decreases games.len(),
{
    if games.len() > 0 {
        lemma_tally_bounded(games.drop_last());
    }
}

/// The record of a series of games between two agents.
///
/// The agents themselves and the board live outside this library: the caller
/// plays each game and hands its final field counts to the record.
pub struct Game {
    rounds: u8,
    res: (u32, u32, u32),
    last_result: i32,
    agent_kinds: (u8, u8),
}

impl Game {
    pub closed spec fn rounds_spec(&self) -> u8 {
        self.rounds
    }

    pub closed spec fn results_spec(&self) -> (u32, u32, u32) {
        self.res
    }

    pub closed spec fn last_result_spec(&self) -> i32 {
        self.last_result
    }

    pub closed spec fn agent_kinds_spec(&self) -> (u8, u8) {
        self.agent_kinds
    }

    /// A record for games of `rounds_per_game` rounds. The first decimal digit of
    /// `game_type` selects the kind of the first agent, the second digit the kind
    /// of the second one.
    pub fn new(rounds_per_game: u8, game_type: u8) -> (g: Game)
        ensures
            g.rounds_spec() == rounds_per_game,
            g.results_spec() == (0u32, 0u32, 0u32),
            g.agent_kinds_spec() == (game_type / 10, game_type % 10),
    {
        Game {
            rounds: rounds_per_game,
            res: (0, 0, 0),
            last_result: 0,
            agent_kinds: (game_type / 10, game_type % 10),
        }
    }

    /// The number of rounds of each game.
    pub fn rounds(&self) -> (r: u8)
        ensures
            r == self.rounds_spec(),
    {
        self.rounds
    }

    /// The kinds of the two agents, as decoded from the game type.
    pub fn agent_kinds(&self) -> (r: (u8, u8))
        ensures
            r == self.agent_kinds_spec(),
    {
        self.agent_kinds
    }

    fn update_results(&mut self, first_player_fields: u8, second_player_fields: u8)
        requires
            old(self).res.0 < u32::MAX,
            old(self).res.1 < u32::MAX,
            old(self).res.2 < u32::MAX,
        ensures
            final(self).rounds == old(self).rounds,
            final(self).agent_kinds == old(self).agent_kinds,
            final(self).last_result == verdict(first_player_fields, second_player_fields),
            (final(self).res.0 as nat, final(self).res.1 as nat, final(self).res.2 as nat)
                == tally_one(
                (old(self).res.0 as nat, old(self).res.1 as nat, old(self).res.2 as nat),
                first_player_fields,
                second_player_fields,
            ),
    {
        if first_player_fields > second_player_fields {
            self.res.0 = self.res.0 + 1;
            self.last_result = 1;
        } else if first_player_fields < second_player_fields {
            self.res.2 = self.res.2 + 1;
            self.last_result = -1;
        } else {
            self.res.1 = self.res.1 + 1;
            self.last_result = 0;
        }
    }

    /// Records one finished game and returns its verdict, which the caller hands
    /// to learning agents.
    pub fn record_game(&mut self, first_player_fields: u8, second_player_fields: u8) -> (r: i32)
        requires
            old(self).results_spec().0 < u32::MAX,
            old(self).results_spec().1 < u32::MAX,
            old(self).results_spec().2 < u32::MAX,
        ensures
            r == verdict(first_player_fields, second_player_fields),
            final(self).last_result_spec() == r,
            final(self).rounds_spec() == old(self).rounds_spec(),
            final(self).agent_kinds_spec() == old(self).agent_kinds_spec(),
            ({
                let o = old(self).results_spec();
                let n = final(self).results_spec();
                (n.0 as nat, n.1 as nat, n.2 as nat) == tally_one(
                    (o.0 as nat, o.1 as nat, o.2 as nat),
                    first_player_fields,
                    second_player_fields,
                )
            }),
    {
        self.update_results(first_player_fields, second_player_fields);
        self.last_result
    }

    /// Clears the tally before a new series of games.
    pub fn reset_results(&mut self)
        ensures
            final(self).results_spec() == (0u32, 0u32, 0u32),
            final(self).last_result_spec() == old(self).last_result_spec(),
            final(self).rounds_spec() == old(self).rounds_spec(),
            final(self).agent_kinds_spec() == old(self).agent_kinds_spec(),
    {
        self.res = (0, 0, 0);
    }

    /// The tally of (wins, draws, losses) of the first player.
    pub fn get_results(&self) -> (r: (u32, u32, u32))
        ensures
            r == self.results_spec(),
    {
        self.res
    }

    /// Scores a series of benchmark games, in which the agents neither explore nor
    /// learn, so that the games do not depend on one another: the tally is cleared,
    /// then each game, given by the fields each player holds at its end, is counted.
    pub fn bench(&mut self, games: &Vec<(u8, u8)>) -> (r: (u32, u32, u32))
        requires
            games@.len() < u32::MAX,
        ensures
            r == final(self).results_spec(),
            (r.0 as nat, r.1 as nat, r.2 as nat) == tally(games@),
            final(self).rounds_spec() == old(self).rounds_spec(),
            final(self).agent_kinds_spec() == old(self).agent_kinds_spec(),
            games@.len() > 0 ==> final(self).last_result_spec() == verdict(
                games@.last().0,
                games@.last().1,
            ),
            games@.len() == 0 ==> final(self).last_result_spec() == old(self).last_result_spec(),
    {
        self.res = (0, 0, 0);
        let mut i: usize = 0;
        while i < games.len()
            invariant
                i <= games@.len(),
                games@.len() < u32::MAX,
                (self.res.0 as nat, self.res.1 as nat, self.res.2 as nat) == tally(
                    games@.take(i as int),
                ),
                self.rounds == old(self).rounds,
                self.agent_kinds == old(self).agent_kinds,
                i > 0 ==> self.last_result == verdict(games@[i - 1].0, games@[i - 1].1),
                i == 0 ==> self.last_result == old(self).last_result,
            decreases games@.len() - i,
        {
            proof {
                lemma_tally_bounded(games@.take(i as int));
            }
            let (a, b) = games[i];
            self.update_results(a, b);
            proof {
                assert(games@.take(i + 1).drop_last() =~= games@.take(i as int));
            }
            i = i + 1;
        }
        proof {
            assert(games@.take(i as int) =~= games@);
        }
        self.res
    }

    /// Whether the exploration of training agents is lowered before game `game` of
    /// a series of `num_games`, and if so to how many tenths of its starting value.
    /// The series is cut into ten sub-epochs of `num_games / 10` games; at the start
    /// of sub-epoch `k` the rate becomes `(10 - k) / 10` of the starting one. A series
    /// of fewer than ten games has no sub-epochs and keeps its rate. Where `num_games`
    /// is no multiple of ten, the games past the tenth sub-epoch run at rate zero.
    pub fn exploration_step(num_games: u64, game: u64) -> (r: Option<u64>)
        requires
            game < num_games,
        ensures
            num_games / 10 == 0 ==> r is None,
            num_games / 10 > 0 ==> (r is Some <==> game % (num_games / 10) == 0),
            r matches Some(k) ==> k == if game / (num_games / 10) <= 10 {
                10 - game / (num_games / 10)
            } else {
                0
            },
    {
        let sub_epoch: u64 = num_games / 10;
        if sub_epoch == 0 {
            return None;
        }
        if game % sub_epoch == 0 {
            let nr: u64 = game / sub_epoch;
            if nr <= 10 {
                Some(10 - nr)
            } else {
                Some(0)
            }
        } else {
            None
        }
    }
}

} // verus!
