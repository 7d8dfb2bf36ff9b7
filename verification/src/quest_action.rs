use vstd::prelude::*;

use crate::effects::{Coords, Effect, MapRequest, Reply, WarpAnnouncement, WorldRequest};
use crate::player::{Player, WarpSession};
use crate::rng::SHORT_MAX;
use crate::text::is_text;

verus! {

/// An argument of a quest action, as quest scripts write them.
#[derive(Debug, Clone, PartialEq, Eq)]
pub enum QuestArg {
    Int(i32),
    Str(String),
}

/// Argument `i` when it is a number.
pub open spec fn int_arg(args: Seq<QuestArg>, i: int) -> Option<i32> {
    if 0 <= i < args.len() {
        match args[i] {
            QuestArg::Int(v) => Some(v),
            QuestArg::Str(_) => None,
        }
    } else {
        None
    }
}

/// The effect of a quest action other than `SetMap`: the item actions default
/// their amount to 1; a quake of magnitude 8 shakes the world, a smaller one
/// the map; an action that lacks an argument it reads, or that is unknown,
/// does nothing.
pub open spec fn quest_effect(action: Seq<char>, args: Seq<QuestArg>) -> Option<Effect> {
    let first = int_arg(args, 0);
    let amount = match int_arg(args, 1) {
        Some(a) => a,
        None => 1,
    };
    if action == "GiveItem"@ {
        match first {
            Some(item_id) => Some(Effect::ToMap(MapRequest::GiveItem { item_id, amount })),
            None => None,
        }
    } else if action == "RemoveItem"@ {
        match first {
            Some(item_id) => Some(Effect::ToMap(MapRequest::LoseItem { item_id, amount })),
            None => None,
        }
    } else if action == "SetClass"@ {
        match first {
            Some(class_id) => Some(Effect::ToMap(MapRequest::SetClass { class_id })),
            None => None,
        }
    } else if action == "PlayMusic"@ || action == "PlaySound"@ {
        match first {
            Some(sound_id) => Some(Effect::Reply(Reply::MusicPlayer { sound_id })),
            None => None,
        }
    } else if action == "ShowHint"@ {
        if args.len() > 0 && args[0] is Str {
            Some(Effect::Reply(Reply::MessageOpen { message: args[0]->Str_0 }))
        } else {
            None
        }
    } else if action == "GiveExp"@ {
        match first {
            Some(amount) => Some(Effect::ToMap(MapRequest::AwardExperience { amount })),
            None => None,
        }
    } else if action == "GiveKarma"@ {
        match first {
            Some(amount) => Some(Effect::ToMap(MapRequest::GiveKarma { amount })),
            None => None,
        }
    } else if action == "RemoveKarma"@ {
        match first {
            Some(amount) => Some(Effect::ToMap(MapRequest::RemoveKarma { amount })),
            None => None,
        }
    } else if action == "Quake"@ {
        match first {
            Some(magnitude) => if magnitude == 8 {
                Some(Effect::ToWorld(WorldRequest::Quake { magnitude }))
            } else {
                Some(Effect::ToMap(MapRequest::Quake { magnitude }))
            },
            None => None,
        }
    } else if action == "EffectOnPlayer"@ {
        match first {
            Some(effect_id) => Some(Effect::ToMap(MapRequest::EffectOnPlayer { effect_id })),
            None => None,
        }
    } else if action == "EffectOnCoord"@ {
        match (first, int_arg(args, 1), int_arg(args, 2)) {
            (Some(effect_id), Some(x), Some(y)) => Some(
                Effect::ToMap(MapRequest::EffectOnCoord { coords: Coords { x, y }, effect_id }),
            ),
            _ => None,
        }
    } else {
        None
    }
}

/// `SetMap` with its three numbers: the map id, then x and y.
pub open spec fn is_set_map(action: Seq<char>, args: Seq<QuestArg>) -> bool {
    action == "SetMap"@ && int_arg(args, 0) is Some && int_arg(args, 1) is Some && int_arg(args, 2)
        is Some
}

fn int_at(args: &Vec<QuestArg>, i: usize) -> (r: Option<i32>)
    ensures
        r == int_arg(args@, i as int),
{
    if i < args.len() {
        match &args[i] {
            QuestArg::Int(v) => Some(*v),
            QuestArg::Str(_) => None,
        }
    } else {
        None
    }
}

impl Player {
    /// Carries out an action of a quest script on this player. Nothing happens
    /// when the player is on no map. `SetMap` warps the player (see
    /// [`Player::request_warp`]); the other actions are [`quest_effect`].
    pub fn quest_action(&mut self, action: &String, args: &Vec<QuestArg>) -> (r: Option<Effect>)
        ensures
            old(self).map is Some && is_set_map(action@, args@) ==> {
                let map_id = int_arg(args@, 0)->0;
                let coords = Coords { x: int_arg(args@, 1)->0, y: int_arg(args@, 2)->0 };
                &&& final(self).session_id is Some
                &&& 10 <= final(self).session_id->0 < SHORT_MAX
                &&& *final(self) == (Player {
                    session_id: final(self).session_id,
                    warp_session: Some(
                        WarpSession { map_id, coords, local: false, animation: None },
                    ),
                    ..*old(self)
                })
                &&& r == Some(
                    Effect::Announce(
                        WarpAnnouncement::MapSwitch {
                            map_id,
                            session_id: final(self).session_id->0,
                        },
                    ),
                )
            },
            !(old(self).map is Some && is_set_map(action@, args@)) ==> {
                &&& *final(self) == *old(self)
                &&& r == if old(self).map is Some && action@ != "SetMap"@ {
                    quest_effect(action@, args@)
                } else {
                    None
                }
            },
    {
        if self.map.is_none() {
            return None;
        }
        let first = int_at(args, 0);
        let second = int_at(args, 1);
        let amount = match second {
            Some(a) => a,
            None => 1,
        };
        if is_text(action, "SetMap") {
            let third = int_at(args, 2);
            match (first, second, third) {
                (Some(map_id), Some(x), Some(y)) => {
                    let announcement = self.request_warp(map_id, Coords { x, y }, false, None);
                    Some(Effect::Announce(announcement))
                },
                _ => None,
            }
        } else if is_text(action, "GiveItem") {
            match first {
                Some(item_id) => Some(Effect::ToMap(MapRequest::GiveItem { item_id, amount })),
                None => None,
            }
        } else if is_text(action, "RemoveItem") {
            match first {
                Some(item_id) => Some(Effect::ToMap(MapRequest::LoseItem { item_id, amount })),
                None => None,
            }
        } else if is_text(action, "SetClass") {
            match first {
                Some(class_id) => Some(Effect::ToMap(MapRequest::SetClass { class_id })),
                None => None,
            }
        } else if is_text(action, "PlayMusic") || is_text(action, "PlaySound") {
            match first {
                Some(sound_id) => Some(Effect::Reply(Reply::MusicPlayer { sound_id })),
                None => None,
            }
        } else if is_text(action, "ShowHint") {
            if args.len() > 0 {
                match &args[0] {
                    QuestArg::Str(message) => Some(
                        Effect::Reply(Reply::MessageOpen { message: message.clone() }),
                    ),
                    QuestArg::Int(_) => None,
                }
            } else {
                None
            }
        } else if is_text(action, "GiveExp") {
            match first {
                Some(amount) => Some(Effect::ToMap(MapRequest::AwardExperience { amount })),
                None => None,
            }
        } else if is_text(action, "GiveKarma") {
            match first {
                Some(amount) => Some(Effect::ToMap(MapRequest::GiveKarma { amount })),
                None => None,
            }
        } else if is_text(action, "RemoveKarma") {
            match first {
                Some(amount) => Some(Effect::ToMap(MapRequest::RemoveKarma { amount })),
                None => None,
            }
        } else if is_text(action, "Quake") {
            match first {
                Some(magnitude) => if magnitude == 8 {
                    Some(Effect::ToWorld(WorldRequest::Quake { magnitude }))
                } else {
                    Some(Effect::ToMap(MapRequest::Quake { magnitude }))
                },
                None => None,
            }
        } else if is_text(action, "EffectOnPlayer") {
            match first {
                Some(effect_id) => Some(Effect::ToMap(MapRequest::EffectOnPlayer { effect_id })),
                None => None,
            }
        } else if is_text(action, "EffectOnCoord") {
            let third = int_at(args, 2);
            match (first, second, third) {
                (Some(effect_id), Some(x), Some(y)) => Some(
                    Effect::ToMap(MapRequest::EffectOnCoord { coords: Coords { x, y }, effect_id }),
                ),
                _ => None,
            }
        } else {
            None
        }
    }
}

} // verus!
