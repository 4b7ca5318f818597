//! The session record: one per match attempt. It gathers the initial match
//! snapshot, the canonical event timeline, the win/loss outcome and the
//! optional post-game statistics, and is persisted once beside the video.

use vstd::prelude::*;
use crate::events::CanonicalEvent;

verus! {

/// The initial match snapshot: game mode, the tracked player, and the
/// champion that player is on. Populated at most once per session.
pub struct GameInfo {
    pub game_mode: String,
    pub summoner_name: String,
    pub champion_name: String,
}

impl GameInfo {
    /// The default snapshot, used when the fetch fails: all names empty.
    pub fn empty() -> (r: GameInfo)
        ensures
            r.game_mode@ == Seq::<char>::empty(),
            r.summoner_name@ == Seq::<char>::empty(),
            r.champion_name@ == Seq::<char>::empty(),
    {
        GameInfo { game_mode: String::new(), summoner_name: String::new(), champion_name: String::new() }
    }
}

/// One entry of the all-players list in the initial snapshot payload.
pub struct PlayerInfo {
    pub summoner_name: String,
    pub champion_name: String,
}

/// The champion of the first listed player carrying `name`.
pub open spec fn champion_of(players: Seq<PlayerInfo>, name: Seq<char>) -> Option<String>
    decreases players.len(),
{
    if players.len() == 0 {
        None
    } else if players.first().summoner_name@ == name {
        Some(players.first().champion_name)
    } else {
        champion_of(players.drop_first(), name)
    }
}

/// Assembles the initial snapshot from the payload's parts: the game mode,
/// the active player's name, and that player's champion looked up among the
/// listed players. `None` exactly when the active player is not listed; the
/// session then keeps its default snapshot.
pub fn make_game_info(game_mode: String, active_player: String, players: &Vec<PlayerInfo>) -> (r:
    Option<GameInfo>)
    ensures
        r == match champion_of(players@, active_player@) {
            Some(ch) => Some(
                GameInfo { game_mode, summoner_name: active_player, champion_name: ch },
            ),
            None => None::<GameInfo>,
        },
{
    let mut i: usize = 0;
    proof {
        assert(players@.skip(0) =~= players@);
    }
    while i < players.len()
        invariant
            i <= players.len(),
            champion_of(players@.skip(i as int), active_player@) == champion_of(
                players@,
                active_player@,
            ),
        decreases players.len() - i,
    {
        if players[i].summoner_name.eq(&active_player) {
            proof {
                assert(players@.skip(i as int).first() == players@[i as int]);
            }
            return Some(
                GameInfo {
                    game_mode,
                    summoner_name: active_player,
                    champion_name: players[i].champion_name.clone(),
                },
            );
        }
        proof {
            assert(players@.skip(i as int).drop_first() =~= players@.skip(i as int + 1));
        }
        i = i + 1;
    }
    proof {
        assert(players@.skip(players@.len() as int).len() == 0);
    }
    None
}

/// One timeline entry: a canonical event name stamped with the elapsed time,
/// in milliseconds, since capture started.
#[derive(Clone, Copy, PartialEq, Eq, Structural, Debug)]
pub struct TimedEvent {
    pub name: CanonicalEvent,
    pub time_ms: u64,
}

/// The record of one recording session.
pub struct SessionRecord {
    /// Base name shared by the video file and its metadata sidecar; fixed at
    /// construction, before any event is recorded.
    pub output_path: String,
    pub game_info: GameInfo,
    pub events: Vec<TimedEvent>,
    pub win: Option<bool>,
    pub stats: Option<String>,
}

/// The write-once rule for the outcome: the first writer wins, a later write
/// leaves the value untouched.
pub open spec fn outcome_after(win: Option<bool>, w: bool) -> Option<bool> {
    if win is Some {
        win
    } else {
        Some(w)
    }
}

impl SessionRecord {
    /// The timeline is ordered by arrival, which the time-ordered source
    /// stream makes non-decreasing in time.
    pub open spec fn events_nondecreasing(self) -> bool {
        forall|i: int, j: int|
            0 <= i <= j < self.events@.len() ==> self.events@[i].time_ms
                <= self.events@[j].time_ms
    }

    /// The stamp of the latest timeline entry; zero for an empty timeline.
    pub open spec fn last_time(self) -> u64 {
        if self.events@.len() == 0 {
            0u64
        } else {
            self.events@.last().time_ms
        }
    }

    pub open spec fn wf(self) -> bool {
        self.events_nondecreasing()
    }

    /// A fresh record for a session that will write to `output_path`.
    pub fn new(output_path: String) -> (r: SessionRecord)
        ensures
            r.output_path == output_path,
            r.game_info.game_mode@ == Seq::<char>::empty(),
            r.game_info.summoner_name@ == Seq::<char>::empty(),
            r.game_info.champion_name@ == Seq::<char>::empty(),
            r.events@ == Seq::<TimedEvent>::empty(),
            r.win is None,
            r.stats is None,
            r.wf(),
    {
        let r = SessionRecord {
            output_path,
            game_info: GameInfo::empty(),
            events: Vec::new(),
            win: None,
            stats: None,
        };
        proof {
            assert(r.events@ =~= Seq::<TimedEvent>::empty());
        }
        r
    }

    /// Installs the initial snapshot; the caller does this at most once.
    pub fn set_game_info(&mut self, info: GameInfo)
        ensures
            *final(self) == (SessionRecord { game_info: info, ..*old(self) }),
    {
        self.game_info = info;
    }

    /// Records the win/loss outcome, first writer wins.
    pub fn set_outcome(&mut self, w: bool)
        ensures
            *final(self) == (SessionRecord { win: outcome_after(old(self).win, w), ..*old(self) }),
    {
        if self.win.is_none() {
            self.win = Some(w);
        }
    }

    /// Installs the post-game statistics payload.
    pub fn set_stats(&mut self, stats: String)
        ensures
            *final(self) == (SessionRecord { stats: Some(stats), ..*old(self) }),
    {
        self.stats = Some(stats);
    }

    /// Appends one canonical event, stamped with the elapsed time since the
    /// session started. Arrival order is non-decreasing in time, so the
    /// timeline stays sorted.
    pub fn push_event(&mut self, name: CanonicalEvent, time_ms: u64)
        requires
            old(self).wf(),
            time_ms >= old(self).last_time(),
        ensures
            final(self).events@ == old(self).events@.push(TimedEvent { name, time_ms }),
            final(self).output_path == old(self).output_path,
            final(self).game_info == old(self).game_info,
            final(self).win == old(self).win,
            final(self).stats == old(self).stats,
            final(self).wf(),
    {
        self.events.push(TimedEvent { name, time_ms });
    }
}

/// Law: in any well-formed record — and every record this library assembles
/// stays well-formed — the timeline's timestamps are non-decreasing.
pub proof fn lemma_events_timestamps_nondecreasing(r: SessionRecord, i: int, j: int)
    requires
        r.wf(),
        0 <= i <= j < r.events@.len(),
    ensures
        r.events@[i].time_ms <= r.events@[j].time_ms,
{
}

/// Law: the outcome is set at most once. Once some writer — the in-stream
/// match-end event or the post-game query — has set it, a later write leaves
/// it unchanged; and a write to an unset outcome installs exactly that value.
pub proof fn lemma_outcome_first_write_wins(win: Option<bool>, w1: bool, w2: bool)
    ensures
        outcome_after(outcome_after(win, w1), w2) == outcome_after(win, w1),
        win is None ==> outcome_after(win, w1) == Some(w1),
        win is Some ==> outcome_after(win, w1) == win,
{
}

} // verus!
