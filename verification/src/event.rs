//! The event model: team events, league events and their tips.

use vstd::prelude::*;
use crate::error::MenuError;

verus! {

/// A short hint attached to an event.
///
/// A tip is shown as text and also offered as a chat macro. For the macro to
/// work, the name must keep at least one character once its whitespace is
/// removed, and neither the name nor the content may hold a quote character
/// or the two characters that separate macro entries. Only the first of
/// these is looked at here; the others are for the author of the tips to
/// keep.
#[derive(Clone, Debug, PartialEq, Eq)]
pub struct Tip {
    pub name: String,
    pub content: String,
}

/// What a tip holds, as plain text.
pub struct TipView {
    pub name: Seq<char>,
    pub content: Seq<char>,
}

impl View for Tip {
    type V = TipView;

    open spec fn view(&self) -> TipView {
        TipView { name: self.name@, content: self.content@ }
    }
}

/// The tips of a list, each by what it holds, in the list's order.
pub open spec fn tips_view(tips: Seq<Tip>) -> Seq<TipView> {
    tips.map_values(|tip: Tip| tip@)
}

/// A group activity: either a team event or a league event.
#[derive(Clone, Debug, PartialEq, Eq)]
pub enum GroupEvent {
    TeamEvent {
        name: String,
        level_requirement: u8,
        merits: u8,
        team_size: u8,
        location: String,
        tips: Vec<Tip>,
    },
    LeagueEvent {
        name: String,
        requirements: String,
        rewards: String,
        league_size: u8,
        location: String,
        tips: Vec<Tip>,
    },
}

/// What an event holds, as plain values.
pub enum GroupEventView {
    TeamEvent {
        name: Seq<char>,
        level_requirement: u8,
        merits: u8,
        team_size: u8,
        location: Seq<char>,
        tips: Seq<TipView>,
    },
    LeagueEvent {
        name: Seq<char>,
        requirements: Seq<char>,
        rewards: Seq<char>,
        league_size: u8,
        location: Seq<char>,
        tips: Seq<TipView>,
    },
}

impl View for GroupEvent {
    type V = GroupEventView;

    open spec fn view(&self) -> GroupEventView {
        match *self {
            GroupEvent::TeamEvent { name, level_requirement, merits, team_size, location, tips } => {
                GroupEventView::TeamEvent {
                    name: name@,
                    level_requirement,
                    merits,
                    team_size,
                    location: location@,
                    tips: tips_view(tips@),
                }
            },
            GroupEvent::LeagueEvent { name, requirements, rewards, league_size, location, tips } => {
                GroupEventView::LeagueEvent {
                    name: name@,
                    requirements: requirements@,
                    rewards: rewards@,
                    league_size,
                    location: location@,
                    tips: tips_view(tips@),
                }
            },
        }
    }
}

/// The events of a list, each by what it holds, in the list's order.
pub open spec fn events_view(events: Seq<GroupEvent>) -> Seq<GroupEventView> {
    events.map_values(|event: GroupEvent| event@)
}

impl GroupEventView {
    /// The tips of the event, in authoring order.
    pub open spec fn tips(self) -> Seq<TipView> {
        match self {
            GroupEventView::TeamEvent { tips, .. } => tips,
            GroupEventView::LeagueEvent { tips, .. } => tips,
        }
    }
}

/// How a team event's level requirement stands to a threshold: -1 when it is
/// strictly below, 1 when it is at or above. The threshold's own value plays
/// no part beyond the comparison. A league event has no level requirement.
pub open spec fn level_comparison(event: GroupEventView, threshold: u8) -> Result<i8, MenuError> {
    match event {
        GroupEventView::TeamEvent { level_requirement, .. } => {
            if level_requirement < threshold {
                Ok(-1i8)
            } else {
                Ok(1i8)
            }
        },
        GroupEventView::LeagueEvent { .. } => Err(MenuError::InvalidVariant),
    }
}

impl GroupEvent {
    /// The tips of the event, in authoring order.
    pub open spec fn spec_tips(&self) -> Vec<Tip> {
        match *self {
            GroupEvent::TeamEvent { tips, .. } => tips,
            GroupEvent::LeagueEvent { tips, .. } => tips,
        }
    }

    /// Compares a team event's level requirement with `value`.
    pub fn compare_level_requirement(&self, value: &u8) -> (result: Result<i8, MenuError>)
        ensures
            result == level_comparison(self@, *value),
    {
        match self {
            GroupEvent::TeamEvent { level_requirement, .. } => {
                if *level_requirement < *value {
                    Ok(-1)
                } else {
                    Ok(1)
                }
            },
            GroupEvent::LeagueEvent { .. } => Err(MenuError::InvalidVariant),
        }
    }

    /// The tips of the event, whichever kind it is.
    pub fn get_tips(&self) -> (tips: &Vec<Tip>)
        ensures
            *tips == self.spec_tips(),
            tips_view(tips@) == self@.tips(),
    {
        match self {
            GroupEvent::TeamEvent { tips, .. } => tips,
            GroupEvent::LeagueEvent { tips, .. } => tips,
        }
    }
}

} // verus!
