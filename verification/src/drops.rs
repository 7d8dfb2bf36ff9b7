use vstd::prelude::*;

use crate::effects::{Effect, Reply};
use crate::forwarding::{admin_interact_report_effect, admin_interact_tell_effect};
use crate::packets::{
    admin_interact_report_decoded, admin_interact_tell_decoded, decode_admin_interact_report,
    decode_admin_interact_tell, PacketAction,
};
use crate::player::Player;
use crate::text::views;

verus! {

/// One possible drop of an npc.
#[derive(Debug, Clone, Copy, PartialEq, Eq, Structural)]
pub struct DropInfo {
    pub item_id: i32,
    pub min_amount: i32,
    pub max_amount: i32,
    /// The chance of the drop, out of 64000.
    pub rate: i32,
}

/// The drops of one npc.
#[derive(Debug, Clone)]
pub struct NpcDrops {
    pub npc_id: i32,
    pub drops: Vec<DropInfo>,
}

/// A line of the drop dialog: a name, and the drop rate (out of 64000) shown
/// on its right, or nothing.
#[derive(Debug, Clone, PartialEq, Eq)]
pub struct DropLine {
    pub name: String,
    pub rate: Option<i32>,
}

/// What the drop information packet asks about.
#[derive(Debug, Clone, Copy, PartialEq, Eq, Structural)]
pub enum LookupType {
    Item,
    Npc,
    Unrecognized(i32),
}

/// The fields of the drop information packet.
#[derive(Debug, Clone, Copy, PartialEq, Eq, Structural)]
pub struct AdminInteractTakePacket {
    pub lookup_type: LookupType,
    pub id: i32,
}

/// A drop that can happen: it gives at least one item.
pub open spec fn real_drop(d: DropInfo) -> bool {
    d.min_amount > 0 && d.max_amount > 0
}

/// A real drop of item `item_id`.
pub open spec fn drops_item(d: DropInfo, item_id: i32) -> bool {
    d.item_id == item_id && real_drop(d)
}

/// `i` is the first real drop of item `item_id` in `drops`.
pub open spec fn first_drop_at(drops: Seq<DropInfo>, item_id: i32, i: int) -> bool {
    &&& 0 <= i < drops.len()
    &&& drops_item(drops[i], item_id)
    &&& forall|j: int| 0 <= j < i ==> !drops_item(#[trigger] drops[j], item_id)
}

/// The first real drop of item `item_id` in `drops`.
pub open spec fn first_drop(drops: Seq<DropInfo>, item_id: i32) -> Option<DropInfo> {
    if exists|i: int| first_drop_at(drops, item_id, i) {
        Some(drops[choose|i: int| first_drop_at(drops, item_id, i)])
    } else {
        None
    }
}

/// The name with id `id` (starting at 1), when there is one.
pub open spec fn name_by_id(names: Seq<Seq<char>>, id: i32) -> Option<Seq<char>> {
    if 1 <= id <= names.len() {
        Some(names[id - 1])
    } else {
        None
    }
}

/// The npcs that drop item `item_id`, in table order, with the rate of their
/// first real drop of it; npcs without a name are left out.
pub open spec fn item_drop_rows(item_id: i32, table: Seq<NpcDrops>, npc_names: Seq<Seq<char>>) -> Seq<(Seq<char>, i32)>
    decreases table.len(),
{
    if table.len() == 0 {
        Seq::empty()
    } else {
        let rest = item_drop_rows(item_id, table.drop_last(), npc_names);
        let npc = table.last();
        match (first_drop(npc.drops@, item_id), name_by_id(npc_names, npc.npc_id)) {
            (Some(d), Some(name)) => rest.push((name, d.rate)),
            _ => rest,
        }
    }
}

/// The items an npc's real drops give, in order, with their rates; items
/// without a name are left out.
pub open spec fn npc_drop_rows(drops: Seq<DropInfo>, item_names: Seq<Seq<char>>) -> Seq<(Seq<char>, i32)>
    decreases drops.len(),
{
    if drops.len() == 0 {
        Seq::empty()
    } else {
        let rest = npc_drop_rows(drops.drop_last(), item_names);
        let d = drops.last();
        match name_by_id(item_names, d.item_id) {
            Some(name) if real_drop(d) => rest.push((name, d.rate)),
            _ => rest,
        }
    }
}

/// `i` is the first entry of the table for npc `npc_id`.
pub open spec fn first_npc_at(table: Seq<NpcDrops>, npc_id: i32, i: int) -> bool {
    &&& 0 <= i < table.len()
    &&& table[i].npc_id == npc_id
    &&& forall|j: int| 0 <= j < i ==> (#[trigger] table[j]).npc_id != npc_id
}

/// The drops of npc `npc_id`: those of its first entry in the table.
pub open spec fn drops_of_npc(table: Seq<NpcDrops>, npc_id: i32) -> Option<Seq<DropInfo>> {
    if exists|i: int| first_npc_at(table, npc_id, i) {
        Some(table[choose|i: int| first_npc_at(table, npc_id, i)].drops@)
    } else {
        None
    }
}

/// The lines of the drop dialog for the given rows: a blank line and a
/// heading, then one line per row; no lines at all when there are no rows.
pub open spec fn dialog_lines(rows: Seq<(Seq<char>, i32)>) -> Seq<(Seq<char>, Option<i32>)> {
    if rows.len() == 0 {
        Seq::empty()
    } else {
        seq![(" "@, None), ("Drops:"@, None)] + rows.map_values(|r: (Seq<char>, i32)| (r.0, Some(r.1)))
    }
}

/// The view of a dialog line.
pub open spec fn line_view(l: DropLine) -> (Seq<char>, Option<i32>) {
    (l.name@, l.rate)
}

proof fn lemma_first_drop_unique(drops: Seq<DropInfo>, item_id: i32, i: int, j: int)
    requires
        first_drop_at(drops, item_id, i),
        first_drop_at(drops, item_id, j),
    ensures
        i == j,
{
    if i < j {
        assert(!drops_item(drops[i], item_id));
    } else if j < i {
        assert(!drops_item(drops[j], item_id));
    }
}

proof fn lemma_first_npc_unique(table: Seq<NpcDrops>, npc_id: i32, i: int, j: int)
    requires
        first_npc_at(table, npc_id, i),
        first_npc_at(table, npc_id, j),
    ensures
        i == j,
{
    if i < j {
        assert(table[i].npc_id != npc_id);
    } else if j < i {
        assert(table[j].npc_id != npc_id);
    }
}

/// The first real drop of item `item_id` (see [`first_drop`]).
pub fn find_drop(drops: &Vec<DropInfo>, item_id: i32) -> (r: Option<DropInfo>)
    ensures
        r == first_drop(drops@, item_id),
{
    let mut i: usize = 0;
    while i < drops.len()
        invariant
            i <= drops@.len(),
            forall|j: int| 0 <= j < i ==> !drops_item(#[trigger] drops@[j], item_id),
        decreases drops@.len() - i,
    {
        let d = drops[i];
        if d.item_id == item_id && d.min_amount > 0 && d.max_amount > 0 {
            assert(first_drop_at(drops@, item_id, i as int));
            proof {
                let k = choose|k: int| first_drop_at(drops@, item_id, k);
                lemma_first_drop_unique(drops@, item_id, i as int, k);
            }
            return Some(d);
        }
        i = i + 1;
    }
    assert(!exists|k: int| first_drop_at(drops@, item_id, k));
    None
}

/// The name with id `id` (see [`name_by_id`]).
fn name_with_id(names: &Vec<String>, id: i32) -> (r: Option<String>)
    ensures
        match name_by_id(views(names@), id) {
            Some(n) => r matches Some(s) && s@ == n,
            None => r is None,
        },
{
    if 1 <= id && ((id - 1) as usize) < names.len() {
        Some(names[(id - 1) as usize].clone())
    } else {
        None
    }
}

/// The dialog lines for the given rows (see [`dialog_lines`]).
fn with_heading(rows: Vec<DropLine>, ghost_rows: Ghost<Seq<(Seq<char>, i32)>>) -> (r: Vec<DropLine>)
    requires
        rows@.map_values(|l: DropLine| line_view(l)) == ghost_rows@.map_values(|r: (Seq<char>, i32)| (r.0, Some(r.1))),
    ensures
        r@.map_values(|l: DropLine| line_view(l)) == dialog_lines(ghost_rows@),
{
    let mut rows = rows;
    if rows.len() == 0 {
        assert(ghost_rows@.map_values(|r: (Seq<char>, i32)| (r.0, Some(r.1))).len() == 0);
        assert(rows@.map_values(|l: DropLine| line_view(l)) =~= Seq::<(Seq<char>, Option<i32>)>::empty());
        return rows;
    }
    let mut out: Vec<DropLine> = Vec::new();
    proof {
        reveal_strlit(" ");
        reveal_strlit("Drops:");
    }
    out.push(DropLine { name: " ".to_owned(), rate: None });
    out.push(DropLine { name: "Drops:".to_owned(), rate: None });
    let ghost head = out@;
    let ghost body = rows@;
    out.append(&mut rows);
    assert(out@ =~= head + body);
    assert(out@.map_values(|l: DropLine| line_view(l)) =~= head.map_values(|l: DropLine| line_view(l))
        + body.map_values(|l: DropLine| line_view(l)));
    assert(head.map_values(|l: DropLine| line_view(l)) =~= seq![(" "@, None::<i32>), ("Drops:"@, None::<i32>)]);
    out
}

/// The drop dialog for item `item_id` (see [`item_drop_rows`]);
/// `npc_names` are the npc names by id starting at 1.
pub fn item_drop_lines(item_id: i32, table: &Vec<NpcDrops>, npc_names: &Vec<String>) -> (r: Vec<DropLine>)
    ensures
        r@.map_values(|l: DropLine| line_view(l)) == dialog_lines(item_drop_rows(item_id, table@, views(npc_names@))),
{
    let mut rows: Vec<DropLine> = Vec::new();
    let mut i: usize = 0;
    while i < table.len()
        invariant
            i <= table@.len(),
            rows@.map_values(|l: DropLine| line_view(l)) == item_drop_rows(item_id, table@.take(i as int), views(npc_names@))
                .map_values(|r: (Seq<char>, i32)| (r.0, Some(r.1))),
        decreases table@.len() - i,
    {
        let npc = &table[i];
        assert(table@.take(i + 1).drop_last() =~= table@.take(i as int));
        assert(table@.take(i + 1).last() == table@[i as int]);
        let ghost before = rows@;
        match find_drop(&npc.drops, item_id) {
            Some(d) => match name_with_id(npc_names, npc.npc_id) {
                Some(name) => {
                    rows.push(DropLine { name, rate: Some(d.rate) });
                    assert(rows@.map_values(|l: DropLine| line_view(l)) =~= before.map_values(|l: DropLine| line_view(l)).push(
                        (rows@[before.len() as int].name@, Some(d.rate)),
                    ));
                },
                None => {},
            },
            None => {},
        }
        assert(rows@.map_values(|l: DropLine| line_view(l)) =~= item_drop_rows(item_id, table@.take(i + 1), views(npc_names@))
            .map_values(|r: (Seq<char>, i32)| (r.0, Some(r.1))));
        i = i + 1;
    }
    assert(table@.take(table@.len() as int) =~= table@);
    with_heading(rows, Ghost(item_drop_rows(item_id, table@, views(npc_names@))))
}

/// The drop dialog for npc `npc_id` (see [`npc_drop_rows`]); an npc missing
/// from the table has no dialog. `item_names` are the item names by id
/// starting at 1.
pub fn npc_drop_lines(npc_id: i32, table: &Vec<NpcDrops>, item_names: &Vec<String>) -> (r: Vec<DropLine>)
    ensures
        r@.map_values(|l: DropLine| line_view(l)) == match drops_of_npc(table@, npc_id) {
            Some(drops) => dialog_lines(npc_drop_rows(drops, views(item_names@))),
            None => Seq::empty(),
        },
{
    let mut k: usize = 0;
    while k < table.len() && table[k].npc_id != npc_id
        invariant
            k <= table@.len(),
            forall|j: int| 0 <= j < k ==> (#[trigger] table@[j]).npc_id != npc_id,
        decreases table@.len() - k,
    {
        k = k + 1;
    }
    if k == table.len() {
        assert(!exists|j: int| first_npc_at(table@, npc_id, j));
        let out: Vec<DropLine> = Vec::new();
        assert(out@.map_values(|l: DropLine| line_view(l)) =~= Seq::<(Seq<char>, Option<i32>)>::empty());
        return out;
    }
    assert(first_npc_at(table@, npc_id, k as int));
    proof {
        let c = choose|c: int| first_npc_at(table@, npc_id, c);
        lemma_first_npc_unique(table@, npc_id, k as int, c);
    }
    let drops = &table[k].drops;
    let mut rows: Vec<DropLine> = Vec::new();
    let mut i: usize = 0;
    while i < drops.len()
        invariant
            i <= drops@.len(),
            rows@.map_values(|l: DropLine| line_view(l)) == npc_drop_rows(drops@.take(i as int), views(item_names@))
                .map_values(|r: (Seq<char>, i32)| (r.0, Some(r.1))),
        decreases drops@.len() - i,
    {
        let d = drops[i];
        assert(drops@.take(i + 1).drop_last() =~= drops@.take(i as int));
        assert(drops@.take(i + 1).last() == drops@[i as int]);
        let ghost before = rows@;
        if d.min_amount > 0 && d.max_amount > 0 {
            match name_with_id(item_names, d.item_id) {
                Some(name) => {
                    rows.push(DropLine { name, rate: Some(d.rate) });
                    assert(rows@.map_values(|l: DropLine| line_view(l)) =~= before.map_values(|l: DropLine| line_view(l)).push(
                        (rows@[before.len() as int].name@, Some(d.rate)),
                    ));
                },
                None => {},
            }
        }
        assert(rows@.map_values(|l: DropLine| line_view(l)) =~= npc_drop_rows(drops@.take(i + 1), views(item_names@))
            .map_values(|r: (Seq<char>, i32)| (r.0, Some(r.1))));
        i = i + 1;
    }
    assert(drops@.take(drops@.len() as int) =~= drops@);
    with_heading(rows, Ghost(npc_drop_rows(drops@, views(item_names@))))
}

/// The dialog lines answering a drop information request: what drops an
/// item, or what an npc drops.
pub open spec fn drop_dialog(take: AdminInteractTakePacket, table: Seq<NpcDrops>, npc_names: Seq<Seq<char>>, item_names: Seq<Seq<char>>) -> Seq<(Seq<char>, Option<i32>)> {
    match take.lookup_type {
        LookupType::Item => dialog_lines(item_drop_rows(take.id, table, npc_names)),
        LookupType::Npc => match drops_of_npc(table, take.id) {
            Some(drops) => dialog_lines(npc_drop_rows(drops, item_names)),
            None => Seq::empty(),
        },
        LookupType::Unrecognized(_) => Seq::empty(),
    }
}

impl Player {
    /// Answers a drop information request, when the server reveals drops and
    /// the player stands on a map: the dialog (see [`drop_dialog`]) is shown
    /// when it has lines and the player is still online.
    pub fn admin_interact_take(
        &self,
        take: Option<AdminInteractTakePacket>,
        info_reveals_drops: bool,
        table: &Vec<NpcDrops>,
        npc_names: &Vec<String>,
        item_names: &Vec<String>,
        player_online: bool,
    ) -> (r: Option<Effect>)
        ensures
            match take {
                Some(t) if info_reveals_drops && self.map is Some && player_online
                    && drop_dialog(t, table@, views(npc_names@), views(item_names@)).len() > 0 =>
                    r matches Some(Effect::Reply(Reply::AdminInteractAdd { lines }))
                        && lines@.map_values(|l: DropLine| line_view(l)) == drop_dialog(t, table@, views(npc_names@), views(item_names@)),
                _ => r is None,
            },
    {
        if !info_reveals_drops {
            return None;
        }
        let t = match take {
            Some(t) => t,
            None => return None,
        };
        if self.map.is_none() {
            return None;
        }
        let lines = match t.lookup_type {
            LookupType::Item => item_drop_lines(t.id, table, npc_names),
            LookupType::Npc => npc_drop_lines(t.id, table, item_names),
            LookupType::Unrecognized(_) => return None,
        };
        if lines.len() == 0 || !player_online {
            return None;
        }
        Some(Effect::Reply(Reply::AdminInteractAdd { lines }))
    }

    /// Handles a packet of the admin interact family: Report, Tell, and Take
    /// (see [`Player::admin_interact_take`]), whose packet `take` the caller
    /// decodes.
    pub fn handle_admin_interact(
        &mut self,
        action: PacketAction,
        data: &[u8],
        take: Option<AdminInteractTakePacket>,
        info_reveals_drops: bool,
        table: &Vec<NpcDrops>,
        npc_names: &Vec<String>,
        item_names: &Vec<String>,
        player_online: bool,
    ) -> (r: Option<Effect>)
        ensures
            *final(self) == *old(self),
            action == PacketAction::Report ==> r == admin_interact_report_effect(*old(self), admin_interact_report_decoded(data@)),
            action == PacketAction::Tell ==> r == admin_interact_tell_effect(*old(self), admin_interact_tell_decoded(data@)),
            action == PacketAction::Take ==> match take {
                Some(t) if info_reveals_drops && old(self).map is Some && player_online
                    && drop_dialog(t, table@, views(npc_names@), views(item_names@)).len() > 0 =>
                    r matches Some(Effect::Reply(Reply::AdminInteractAdd { lines }))
                        && lines@.map_values(|l: DropLine| line_view(l)) == drop_dialog(t, table@, views(npc_names@), views(item_names@)),
                _ => r is None,
            },
            action != PacketAction::Report && action != PacketAction::Tell && action != PacketAction::Take ==> r is None,
    {
        match action {
            PacketAction::Report => self.admin_interact_report(decode_admin_interact_report(data)),
            PacketAction::Tell => self.admin_interact_tell(decode_admin_interact_tell(data)),
            PacketAction::Take => self.admin_interact_take(take, info_reveals_drops, table, npc_names, item_names, player_online),
            _ => None,
        }
    }
}

} // verus!
