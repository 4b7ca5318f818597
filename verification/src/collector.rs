//! The per-session event collector: the phases of its asynchronous life, the
//! inputs its suspension points can yield, and the ways it mutates its
//! session record. The transitions between phases are driven by the
//! orchestrator machine, which also owns the coupling with the capture
//! handle.

use vstd::prelude::*;
use crate::events::{canonical_event, canonical_of, GameResult, IngameEvent, IngameEventView};
use crate::record::{outcome_after, GameInfo, SessionRecord, TimedEvent};

verus! {

/// Why a session ended.
#[derive(Clone, Copy, PartialEq, Eq, Structural, Debug)]
pub enum EndReason {
    /// Cancelled before capture started; the session exits silently.
    CancelledEarly,
    /// The detected match is spectated and is not recorded.
    Spectator,
    /// The capture handle was gone by the time capture would have started.
    CaptureUnavailable,
    /// The capture engine refused to start; the session is abandoned and the
    /// orchestrator retries on a later tick.
    StartFailed,
    /// Capture ran; the record is complete and is persisted.
    Completed,
}

/// Where the collector stands: each non-terminal phase is one suspension
/// point of the asynchronous task.
#[derive(Clone, Copy, PartialEq, Eq, Structural, Debug)]
pub enum CollectorPhase {
    /// Polling the local match-data endpoint until a match is active.
    AwaitMatch,
    /// Asking whether the detected match is spectated.
    CheckSpectator,
    /// Fetching the initial match/player snapshot.
    TakeSnapshot,
    /// Waiting for the capture engine's answer to `start`.
    StartCapture,
    /// Consuming the live event stream.
    Streaming,
    /// Opening the post-game statistics subscription.
    PostGameSubscribe,
    /// Waiting, bounded, for the post-game statistics payload.
    PostGameAwait,
    /// Terminal.
    Done(EndReason),
}

/// What a suspension point came back with.
pub enum CollectorInput {
    /// The session's cancellation scope fired.
    Cancelled,
    /// The match-data endpoint reports no active match yet.
    MatchInactive,
    /// The match-data endpoint reports an active match.
    MatchActive,
    /// The match is spectated.
    SpectatorYes,
    /// The match is a real, participatory one.
    SpectatorNo,
    /// The initial snapshot arrived.
    SnapshotOk(GameInfo),
    /// The snapshot fetch failed; the record keeps its defaults.
    SnapshotFailed,
    /// The capture engine confirmed `start`.
    CaptureStarted,
    /// The capture engine refused `start`.
    CaptureStartFailed,
    /// One event of the live stream, stamped with the elapsed milliseconds
    /// since capture started.
    StreamEvent(IngameEvent, u64),
    /// The live stream disconnected: the match client exited.
    StreamEnded,
    /// The post-game subscription is up.
    SubscribeOk,
    /// Connecting or subscribing to the post-game channel failed.
    SubscribeFailed,
    /// The post-game payload: whether it marks a win or a loss, and the
    /// statistics text when it parsed.
    PostGameStats { has_win: bool, has_lose: bool, stats: Option<String> },
    /// The bounded post-game wait timed out.
    PostGameTimeout,
    /// The supervisor forcibly aborted the task after its grace periods.
    Aborted,
}

/// One session's collector: its phase, whether it has started capture,
/// whether its session has been torn down, and the record it owns.
pub struct Collector {
    pub phase: CollectorPhase,
    /// True from the moment the capture engine confirmed `start`.
    pub started: bool,
    /// True once the orchestrator has torn the session down and the task is
    /// only winding down under supervision.
    pub winding_down: bool,
    pub record: SessionRecord,
}

/// The timeline entry a stream event appends, if any.
pub open spec fn events_after_stream(r: SessionRecord, ev: IngameEventView, time_ms: u64) -> Seq<
    TimedEvent,
> {
    match canonical_of(ev, r.game_info.summoner_name@) {
        Some(n) => r.events@.push(TimedEvent { name: n, time_ms }),
        None => r.events@,
    }
}

/// The outcome after a stream event: only the match-end event writes it.
pub open spec fn win_after_stream(r: SessionRecord, ev: IngameEventView) -> Option<bool> {
    match ev {
        IngameEventView::MatchEnd(res) => outcome_after(r.win, res == GameResult::Win),
        _ => r.win,
    }
}

/// The outcome after the post-game payload: a win key marks a win, else a
/// lose key marks a loss, else the outcome is left alone; and in every case
/// an already-set outcome stays (first writer wins).
pub open spec fn win_after_post_game(win: Option<bool>, has_win: bool, has_lose: bool) -> Option<
    bool,
> {
    if has_win {
        outcome_after(win, true)
    } else if has_lose {
        outcome_after(win, false)
    } else {
        win
    }
}

impl Collector {
    pub open spec fn wf(self) -> bool {
        self.record.wf()
    }

    /// A fresh collector for a session writing to `output_path`.
    pub fn new(output_path: String) -> (r: Collector)
        ensures
            r.phase == CollectorPhase::AwaitMatch,
            !r.started,
            !r.winding_down,
            r.record.output_path == output_path,
            r.record.events@ == Seq::<TimedEvent>::empty(),
            r.record.win is None,
            r.record.stats is None,
            r.record.game_info.game_mode@ == Seq::<char>::empty(),
            r.record.game_info.summoner_name@ == Seq::<char>::empty(),
            r.record.game_info.champion_name@ == Seq::<char>::empty(),
            r.wf(),
    {
        Collector {
            phase: CollectorPhase::AwaitMatch,
            started: false,
            winding_down: false,
            record: SessionRecord::new(output_path),
        }
    }

    /// Applies one live stream event to the record: the match-end event
    /// writes the outcome (first writer wins) and is dropped from the
    /// timeline; every other event is mapped to its canonical name relative
    /// to the tracked player, and appended — if it concerns that player —
    /// stamped with the elapsed time.
    pub fn apply_stream_event(&mut self, ev: &IngameEvent, time_ms: u64)
        requires
            old(self).wf(),
            time_ms >= old(self).record.last_time(),
        ensures
            final(self).phase == old(self).phase,
            final(self).started == old(self).started,
            final(self).winding_down == old(self).winding_down,
            final(self).record.output_path == old(self).record.output_path,
            final(self).record.game_info == old(self).record.game_info,
            final(self).record.stats == old(self).record.stats,
            final(self).record.events@ == events_after_stream(old(self).record, ev@, time_ms),
            final(self).record.win == win_after_stream(old(self).record, ev@),
            final(self).wf(),
    {
        match ev {
            IngameEvent::MatchEnd(res) => {
                self.record.set_outcome(match res {
                    GameResult::Win => true,
                    GameResult::Lose => false,
                });
            },
            _ => {},
        }
        let name = canonical_event(ev, &self.record.game_info.summoner_name);
        match name {
            Some(n) => self.record.push_event(n, time_ms),
            None => {},
        }
    }

    /// Applies the post-game payload: the outcome if it was still unset, and
    /// the statistics when they parsed.
    pub fn apply_post_game(&mut self, has_win: bool, has_lose: bool, stats: Option<String>)
        requires
            old(self).wf(),
        ensures
            final(self).phase == old(self).phase,
            final(self).started == old(self).started,
            final(self).winding_down == old(self).winding_down,
            final(self).record.output_path == old(self).record.output_path,
            final(self).record.game_info == old(self).record.game_info,
            final(self).record.events@ == old(self).record.events@,
            final(self).record.win == win_after_post_game(old(self).record.win, has_win, has_lose),
            final(self).record.stats == match stats {
                Some(s) => Some(s),
                None => old(self).record.stats,
            },
            final(self).wf(),
    {
        if has_win {
            self.record.set_outcome(true);
        } else if has_lose {
            self.record.set_outcome(false);
        }
        match stats {
            Some(s) => self.record.set_stats(s),
            None => {},
        }
    }
}

} // verus!
