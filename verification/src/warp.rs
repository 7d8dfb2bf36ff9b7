use vstd::prelude::*;

use crate::effects::{Coords, Effect, MapRequest, WarpAgree, WarpAnnouncement, WarpEffect};
use crate::packets::{decode_warp_accept, decode_warp_take, warp_accept_decoded, warp_take_decoded, PacketAction, WarpAcceptPacket};
use crate::settings::Settings;
use crate::player::{Player, WarpSession};
use crate::rng::{random_session_id, SHORT_MAX};

verus! {

impl Player {
    /// Asks the client to accept a warp: starts a new session with a random id
    /// in `[10, SHORT_MAX)`, remembers where the warp leads and announces it,
    /// as local or as a switch to another map.
    pub fn request_warp(
        &mut self,
        map_id: i32,
        coords: Coords,
        local: bool,
        animation: Option<WarpEffect>,
    ) -> (r: WarpAnnouncement)
        ensures
            final(self).session_id is Some,
            10 <= final(self).session_id->0 < SHORT_MAX,
            *final(self) == (Player {
                session_id: final(self).session_id,
                warp_session: Some(WarpSession { map_id, coords, local, animation }),
                ..*old(self)
            }),
            r == (if local {
                WarpAnnouncement::Local { map_id, session_id: final(self).session_id->0 }
            } else {
                WarpAnnouncement::MapSwitch { map_id, session_id: final(self).session_id->0 }
            }),
    {
        let session_id = random_session_id();
        self.session_id = Some(session_id);
        self.warp_session = Some(WarpSession { map_id, coords, local, animation });
        if local {
            WarpAnnouncement::Local { map_id, session_id }
        } else {
            WarpAnnouncement::MapSwitch { map_id, session_id }
        }
    }
}

/// The player after leaving its map for a warp: it interacts with no npc,
/// chest, board or player, and trades no more.
pub open spec fn left_map(player: Player) -> Player {
    Player {
        interact_npc_index: None,
        chest_index: None,
        board_id: None,
        trading: false,
        trade_accepted: false,
        interact_player_id: None,
        ..player
    }
}

/// What the client is shown of a warp to another map.
pub open spec fn switch_effect(animation: Option<WarpEffect>) -> WarpEffect {
    match animation {
        Some(e) => e,
        None => WarpEffect::NoEffect,
    }
}

/// The player and the effects after the client accepts the pending warp.
/// The player leaves its map, when on one, and arrives where the warp leads:
/// on the same map for a local warp; otherwise on the map the client names
/// when it exists, or else on the rescue map, when that exists. A player on
/// no map warps only with a character held back (`character_held`).
pub open spec fn warp_accept_outcome(
    player: Player,
    packet: Option<WarpAcceptPacket>,
    target_map_exists: bool,
    rescue_map_exists: bool,
    character_held: bool,
    settings: Settings,
) -> (Player, Seq<Effect>) {
    match packet {
        Some(p) if player.warp_session is Some && player.session_is(p.session_id) => {
            let ws = player.warp_session->0;
            let left = player.map is Some;
            let after = if left { left_map(player) } else { player };
            let leave = if left {
                seq![Effect::ToMap(MapRequest::LeaveMap { animation: ws.animation, interact_player_id: player.interact_player_id })]
            } else {
                Seq::empty()
            };
            if !left && !character_held {
                (player, Seq::empty())
            } else if ws.local {
                if player.map is None {
                    (after, leave)
                } else {
                    (after, leave.push(Effect::Arrive {
                        map_id: player.map->0,
                        character_map_id: ws.map_id,
                        coords: ws.coords,
                        animation: ws.animation,
                        agree: WarpAgree::Local,
                    }))
                }
            } else if target_map_exists {
                (Player { map: Some(p.map_id), ..after }, leave.push(Effect::Arrive {
                    map_id: p.map_id,
                    character_map_id: ws.map_id,
                    coords: ws.coords,
                    animation: ws.animation,
                    agree: WarpAgree::MapSwitch { map_id: p.map_id, effect: switch_effect(ws.animation) },
                }))
            } else if rescue_map_exists {
                (Player { map: Some(settings.rescue_map), ..after }, leave.push(Effect::Arrive {
                    map_id: settings.rescue_map,
                    character_map_id: settings.rescue_map,
                    coords: Coords { x: settings.rescue_x, y: settings.rescue_y },
                    animation: ws.animation,
                    agree: WarpAgree::MapSwitch { map_id: settings.rescue_map, effect: switch_effect(ws.animation) },
                }))
            } else {
                (after, leave)
            }
        },
        _ => (player, Seq::empty()),
    }
}

impl Player {
    /// Completes the pending warp once the client accepts it (see
    /// [`warp_accept_outcome`]). `target_map_exists` tells whether the map
    /// the client names exists, `rescue_map_exists` whether the rescue map
    /// does.
    pub fn warp_accept(
        &mut self,
        packet: Option<WarpAcceptPacket>,
        target_map_exists: bool,
        rescue_map_exists: bool,
        character_held: bool,
        settings: &Settings,
    ) -> (r: Vec<Effect>)
        ensures
            (*final(self), r@) == warp_accept_outcome(*old(self), packet, target_map_exists, rescue_map_exists, character_held, *settings),
    {
        let mut out: Vec<Effect> = Vec::new();
        let p = match packet {
            Some(p) => p,
            None => return out,
        };
        let ws = match self.warp_session {
            Some(ws) => ws,
            None => return out,
        };
        if self.session_id != Some(p.session_id) {
            return out;
        }
        let left = self.map.is_some();
        if left {
            out.push(Effect::ToMap(MapRequest::LeaveMap { animation: ws.animation, interact_player_id: self.interact_player_id }));
            self.interact_npc_index = None;
            self.chest_index = None;
            self.board_id = None;
            self.trading = false;
            self.trade_accepted = false;
            self.interact_player_id = None;
        } else if !character_held {
            return out;
        }
        let effect = match ws.animation {
            Some(e) => e,
            None => WarpEffect::NoEffect,
        };
        if ws.local {
            match self.map {
                Some(map_id) => {
                    out.push(Effect::Arrive {
                        map_id,
                        character_map_id: ws.map_id,
                        coords: ws.coords,
                        animation: ws.animation,
                        agree: WarpAgree::Local,
                    });
                },
                None => {},
            }
        } else if target_map_exists {
            self.map = Some(p.map_id);
            out.push(Effect::Arrive {
                map_id: p.map_id,
                character_map_id: ws.map_id,
                coords: ws.coords,
                animation: ws.animation,
                agree: WarpAgree::MapSwitch { map_id: p.map_id, effect },
            });
        } else if rescue_map_exists {
            self.map = Some(settings.rescue_map);
            out.push(Effect::Arrive {
                map_id: settings.rescue_map,
                character_map_id: settings.rescue_map,
                coords: Coords { x: settings.rescue_x, y: settings.rescue_y },
                animation: ws.animation,
                agree: WarpAgree::MapSwitch { map_id: settings.rescue_map, effect },
            });
        }
        out
    }

    /// Handles a packet of the warp family: Accept completes the pending warp
    /// (see [`warp_accept_outcome`]); Take asks for the map file.
    /// `target_map_exists` tells whether the map that
    /// [`warp_accept_map_id`] reads from `data` exists.
    pub fn handle_warp(
        &mut self,
        action: PacketAction,
        data: &[u8],
        target_map_exists: bool,
        rescue_map_exists: bool,
        character_held: bool,
        settings: &Settings,
    ) -> (r: Vec<Effect>)
        ensures
            action == PacketAction::Accept ==> (*final(self), r@) == warp_accept_outcome(
                *old(self),
                warp_accept_decoded(data@),
                target_map_exists,
                rescue_map_exists,
                character_held,
                *settings,
            ),
            action == PacketAction::Take ==> *final(self) == *old(self) && r@ == match warp_take_decoded(data@) {
                Some(p) => seq![Effect::GetWarpMapFile { session_id: p.session_id }],
                None => Seq::<Effect>::empty(),
            },
            action != PacketAction::Accept && action != PacketAction::Take ==> *final(self) == *old(self) && r@.len() == 0,
    {
        match action {
            PacketAction::Accept => self.warp_accept(decode_warp_accept(data), target_map_exists, rescue_map_exists, character_held, settings),
            PacketAction::Take => {
                let mut out: Vec<Effect> = Vec::new();
                match self.warp_take(decode_warp_take(data)) {
                    Some(e) => out.push(e),
                    None => {},
                }
                out
            },
            _ => Vec::new(),
        }
    }
}

/// The map that a warp accept packet names, which the world is asked for.
pub fn warp_accept_map_id(data: &[u8]) -> (r: Option<i32>)
    ensures
        r == match warp_accept_decoded(data@) {
            Some(p) => Some(p.map_id),
            None => None,
        },
{
    match decode_warp_accept(data) {
        Some(p) => Some(p.map_id),
        None => None,
    }
}

} // verus!
