//! The closed vocabulary of in-match events, and the total mapping from the
//! telemetry source's event categories to the canonical timeline names that
//! are persisted with a recording.

use vstd::prelude::*;

verus! {

/// The seven dragon subtypes that the telemetry source distinguishes.
#[derive(Clone, Copy, PartialEq, Eq, Structural, Debug)]
pub enum DragonKind {
    Infernal,
    Ocean,
    Mountain,
    Cloud,
    Hextech,
    Chemtech,
    Elder,
}

/// The end-of-match result reported by the live event stream.
#[derive(Clone, Copy, PartialEq, Eq, Structural, Debug)]
pub enum GameResult {
    Win,
    Lose,
}

/// A champion kill as reported by the live stream. The killer is named only
/// when a player (rather than a neutral unit) scored the kill.
pub struct ChampionKillInfo {
    pub killer: Option<String>,
    pub victim: String,
    pub assisters: Vec<String>,
}

/// One event from the live in-match stream.
pub enum IngameEvent {
    BaronKill,
    HeraldKill,
    TurretDestroyed,
    InhibitorDestroyed,
    DragonKill(DragonKind),
    ChampionKill(ChampionKillInfo),
    MatchEnd(GameResult),
    Other,
}

/// The canonical, source-independent names a timeline entry can carry.
#[derive(Clone, Copy, PartialEq, Eq, Structural, Debug)]
pub enum CanonicalEvent {
    Baron,
    Herald,
    Turret,
    Inhibitor,
    Kill,
    Death,
    Assist,
    Dragon(DragonKind),
}

/// Mathematical image of a champion kill: every name as a character sequence.
pub struct ChampionKillView {
    pub killer: Option<Seq<char>>,
    pub victim: Seq<char>,
    pub assisters: Seq<Seq<char>>,
}

/// Mathematical image of a stream event.
pub enum IngameEventView {
    BaronKill,
    HeraldKill,
    TurretDestroyed,
    InhibitorDestroyed,
    DragonKill(DragonKind),
    ChampionKill(ChampionKillView),
    MatchEnd(GameResult),
    Other,
}

impl View for ChampionKillInfo {
    type V = ChampionKillView;

    open spec fn view(&self) -> ChampionKillView {
        ChampionKillView {
            killer: match self.killer {
                Some(k) => Some(k@),
                None => None,
            },
            victim: self.victim@,
            assisters: self.assisters.deep_view(),
        }
    }
}

impl View for IngameEvent {
    type V = IngameEventView;

    open spec fn view(&self) -> IngameEventView {
        match self {
            IngameEvent::BaronKill => IngameEventView::BaronKill,
            IngameEvent::HeraldKill => IngameEventView::HeraldKill,
            IngameEvent::TurretDestroyed => IngameEventView::TurretDestroyed,
            IngameEvent::InhibitorDestroyed => IngameEventView::InhibitorDestroyed,
            IngameEvent::DragonKill(k) => IngameEventView::DragonKill(*k),
            IngameEvent::ChampionKill(info) => IngameEventView::ChampionKill(info@),
            IngameEvent::MatchEnd(r) => IngameEventView::MatchEnd(*r),
            IngameEvent::Other => IngameEventView::Other,
        }
    }
}

/// The canonical name of a stream event, resolved relative to the tracked
/// player `me`. Champion kills become `Death`, `Kill` or `Assist` when the
/// tracked player took part — victim-is-self before killer-is-self before
/// assister, in that order of precedence — and are dropped otherwise. The
/// end-of-match event never becomes a timeline entry.
pub open spec fn canonical_of(ev: IngameEventView, me: Seq<char>) -> Option<CanonicalEvent> {
    match ev {
        IngameEventView::BaronKill => Some(CanonicalEvent::Baron),
        IngameEventView::HeraldKill => Some(CanonicalEvent::Herald),
        IngameEventView::TurretDestroyed => Some(CanonicalEvent::Turret),
        IngameEventView::InhibitorDestroyed => Some(CanonicalEvent::Inhibitor),
        IngameEventView::DragonKill(k) => Some(CanonicalEvent::Dragon(k)),
        IngameEventView::ChampionKill(ck) => if ck.victim == me {
            Some(CanonicalEvent::Death)
        } else if ck.killer matches Some(k) && k == me {
            Some(CanonicalEvent::Kill)
        } else if ck.assisters.contains(me) {
            Some(CanonicalEvent::Assist)
        } else {
            None
        },
        IngameEventView::MatchEnd(_) => None,
        IngameEventView::Other => None,
    }
}

/// Whether one of the owned names equals the tracked player's name.
fn contains_name(names: &Vec<String>, target: &String) -> (r: bool)
    ensures
        r == names.deep_view().contains(target@),
{
    let mut i: usize = 0;
    while i < names.len()
        invariant
            i <= names.len(),
            forall|j: int| 0 <= j < i ==> names.deep_view()[j] != target@,
        decreases names.len() - i,
    {
        if names[i].eq(target) {
            assert(names.deep_view()[i as int] == target@);
            return true;
        }
        i = i + 1;
    }
    false
}

/// Maps one stream event to its canonical timeline name, relative to the
/// tracked player.
pub fn canonical_event(ev: &IngameEvent, summoner: &String) -> (r: Option<CanonicalEvent>)
    ensures
        r == canonical_of(ev@, summoner@),
{
    match ev {
        IngameEvent::BaronKill => Some(CanonicalEvent::Baron),
        IngameEvent::HeraldKill => Some(CanonicalEvent::Herald),
        IngameEvent::TurretDestroyed => Some(CanonicalEvent::Turret),
        IngameEvent::InhibitorDestroyed => Some(CanonicalEvent::Inhibitor),
        IngameEvent::DragonKill(k) => Some(CanonicalEvent::Dragon(*k)),
        IngameEvent::ChampionKill(info) => {
            let killer_is_me = match &info.killer {
                Some(k) => k.eq(summoner),
                None => false,
            };
            if info.victim.eq(summoner) {
                Some(CanonicalEvent::Death)
            } else if killer_is_me {
                Some(CanonicalEvent::Kill)
            } else if contains_name(&info.assisters, summoner) {
                Some(CanonicalEvent::Assist)
            } else {
                None
            }
        },
        IngameEvent::MatchEnd(_) => None,
        IngameEvent::Other => None,
    }
}

impl CanonicalEvent {
    /// The printable form of a canonical name, exactly as it is persisted.
    pub open spec fn label_view(self) -> Seq<char> {
        match self {
            CanonicalEvent::Baron => "Baron"@,
            CanonicalEvent::Herald => "Herald"@,
            CanonicalEvent::Turret => "Turret"@,
            CanonicalEvent::Inhibitor => "Inhibitor"@,
            CanonicalEvent::Kill => "Kill"@,
            CanonicalEvent::Death => "Death"@,
            CanonicalEvent::Assist => "Assist"@,
            CanonicalEvent::Dragon(DragonKind::Infernal) => "Infernal-Dragon"@,
            CanonicalEvent::Dragon(DragonKind::Ocean) => "Ocean-Dragon"@,
            CanonicalEvent::Dragon(DragonKind::Mountain) => "Mountain-Dragon"@,
            CanonicalEvent::Dragon(DragonKind::Cloud) => "Cloud-Dragon"@,
            CanonicalEvent::Dragon(DragonKind::Hextech) => "Hextech-Dragon"@,
            CanonicalEvent::Dragon(DragonKind::Chemtech) => "Chemtech-Dragon"@,
            CanonicalEvent::Dragon(DragonKind::Elder) => "Elder-Dragon"@,
        }
    }

    /// Renders the canonical name for persistence.
    pub fn label(&self) -> (r: String)
        ensures
            r@ == self.label_view(),
    {
        match self {
            CanonicalEvent::Baron => "Baron".to_owned(),
            CanonicalEvent::Herald => "Herald".to_owned(),
            CanonicalEvent::Turret => "Turret".to_owned(),
            CanonicalEvent::Inhibitor => "Inhibitor".to_owned(),
            CanonicalEvent::Kill => "Kill".to_owned(),
            CanonicalEvent::Death => "Death".to_owned(),
            CanonicalEvent::Assist => "Assist".to_owned(),
            CanonicalEvent::Dragon(DragonKind::Infernal) => "Infernal-Dragon".to_owned(),
            CanonicalEvent::Dragon(DragonKind::Ocean) => "Ocean-Dragon".to_owned(),
            CanonicalEvent::Dragon(DragonKind::Mountain) => "Mountain-Dragon".to_owned(),
            CanonicalEvent::Dragon(DragonKind::Cloud) => "Cloud-Dragon".to_owned(),
            CanonicalEvent::Dragon(DragonKind::Hextech) => "Hextech-Dragon".to_owned(),
            CanonicalEvent::Dragon(DragonKind::Chemtech) => "Chemtech-Dragon".to_owned(),
            CanonicalEvent::Dragon(DragonKind::Elder) => "Elder-Dragon".to_owned(),
        }
    }
}

} // verus!
