//! The helper bot: it refills the belt from the inventory after a potion
//! is drunk, and answers one kind of chat message from the server.
use std::collections::HashMap;
use vstd::prelude::*;
use vstd::std_specs::iter::IteratorSpec;

use crate::hackmap::config::TweaksConfig;

verus! {

broadcast use vstd::std_specs::hash::group_hash_axioms;

/// How long, in milliseconds, the bot waits between two belt refills.
pub const AUTO_FILL_INTERVAL: u64 = 500;

/// How long, in milliseconds, an item sent to the belt stays recorded as
/// on its way.
pub const ITEM_REMOVING_DELAY: u64 = 5000;

/// An item of the player's inventory, as the refill reads it.
#[derive(Clone, Copy)]
pub struct InventoryItem {
    pub unit_id: u32,
    /// The item lies on the inventory page (not the stash or the cube).
    pub in_inventory_page: bool,
    /// The belt has a free slot for the item.
    pub fits_in_belt: bool,
}

/// What an item action packet from the server says about the belt.
#[derive(Clone, Copy)]
pub struct ItemStateEvent {
    pub unit_id: u32,
    pub put_in_belt: bool,
    pub remove_from_belt: bool,
}

/// The helper bot's state.
pub struct HelperBot {
    /// Items sent to the belt, with the time until which they count as on
    /// their way.
    pub items_removing: HashMap<u32, u64>,
    /// The earliest time of the next refill.
    pub next_fill_belt_timestamp: u64,
    /// Belt slots freed and not refilled yet.
    pub belt_free_slots: u32,
}

/// The entries of `m` whose time is before `now`. The refill keeps exactly
/// these, so an entry whose time is still ahead (an item still on its way
/// to the belt) is dropped; this is how the refill behaves, and an item can
/// be sent again before its wait is over.
pub open spec fn keep_before(m: Map<u32, u64>, now: u64) -> Map<u32, u64> {
    Map::new(|k: u32| m.contains_key(k) && m[k] < now, |k: u32| m[k])
}

/// The index of the first item the refill sends to the belt: on the
/// inventory page, not on its way already, and fitting in the belt.
pub open spec fn first_refill_candidate(items: Seq<InventoryItem>, removing: Map<u32, u64>) -> Option<int>
    decreases items.len(),
{
    if items.len() == 0 {
        None
    } else {
        match first_refill_candidate(items.drop_last(), removing) {
            Some(i) => Some(i),
            None => {
                let it = items.last();
                if it.in_inventory_page && !removing.contains_key(it.unit_id) && it.fits_in_belt {
                    Some(items.len() - 1)
                } else {
                    None
                }
            },
        }
    }
}

/// Whether a refill runs at `now`: a belt slot is free, the interval has
/// passed, the cursor holds no item and there is a player.
pub open spec fn refill_runs(bot_free: u32, next_fill: u64, now: u64, cursor_has_item: bool, has_player: bool) -> bool {
    bot_free != 0 && next_fill <= now && !cursor_has_item && has_player
}

fn keep_entries_before(m: &HashMap<u32, u64>, now: u64) -> (r: HashMap<u32, u64>)
    ensures
        r@ == keep_before(m@, now),
{
    let mut r: HashMap<u32, u64> = HashMap::new();
    for (k, v) in it: m.iter()
        invariant
            it.seq() == vstd::std_specs::hash::spec_hash_map_iter(m).remaining(),
            forall|key: u32|
                #![trigger r@.contains_key(key)]
                r@.contains_key(key) ==> m@.contains_key(key) && r@[key] == m@[key] && m@[key] < now,
            forall|i: int|
                #![trigger it.seq()[i]]
                0 <= i < it.index() && *it.seq()[i].1 < now ==> r@.contains_key(*it.seq()[i].0),
    {
        if *v < now {
            r.insert(*k, *v);
        }
    }
    assert forall|key: u32| #[trigger] keep_before(m@, now).contains_key(key) implies r@.contains_key(key) by {
        let s = vstd::std_specs::hash::spec_hash_map_iter(m).remaining();
        assert(s.contains((&key, &m@[key])));
        let i = choose|i: int| 0 <= i < s.len() && s[i] == (&key, &m@[key]);
        assert(*s[i].0 == key);
    }
    assert(r@ =~= keep_before(m@, now));
    r
}

fn find_refill_candidate(items: &Vec<InventoryItem>, removing: &HashMap<u32, u64>) -> (r: Option<usize>)
    ensures
        match first_refill_candidate(items@, removing@) {
            Some(i) => (r matches Some(k) && k as int == i),
            None => r is None,
        },
        r matches Some(i) ==> i < items@.len(),
{
    let mut i: usize = 0;
    while i < items.len()
        invariant
            i <= items.len(),
            first_refill_candidate(items@.take(i as int), removing@) is None,
        decreases items.len() - i,
    {
        assert(items@.take(i + 1).drop_last() =~= items@.take(i as int));
        let it = items[i];
        if it.in_inventory_page && !removing.contains_key(&it.unit_id) && it.fits_in_belt {
            proof {
                lemma_candidate_prefix(items@, removing@, i as int + 1);
            }
            return Some(i);
        }
        i = i + 1;
    }
    assert(items@.take(items.len() as int) =~= items@);
    None
}

proof fn lemma_candidate_prefix(items: Seq<InventoryItem>, removing: Map<u32, u64>, n: int)
    requires
        0 <= n <= items.len(),
        first_refill_candidate(items.take(n), removing) is Some,
    ensures
        first_refill_candidate(items, removing) == first_refill_candidate(items.take(n), removing),
    decreases items.len(),
{
    if items.len() > n {
        assert(items.drop_last().take(n) =~= items.take(n));
        lemma_candidate_prefix(items.drop_last(), removing, n);
    } else {
        assert(items.take(n) =~= items);
    }
}

/// A reply the bot sends to the server.
pub open spec fn chat_reply_packet() -> Seq<u8> {
    seq![0x15u8, 0x01u8, 0x09u8, 0x31u8, 0x00u8, 0x00u8, 0x00u8]
}

/// Whether a server chat packet is the message the bot answers: chat type
/// 3, language 0, unit type 0, unit id 0, colour red and sub type 1.
pub open spec fn is_answered_chat(p: Seq<u8>) -> bool {
    &&& p[1] == 3
    &&& p[2] == 0
    &&& p[3] == 0
    &&& p[4] == 0 && p[5] == 0 && p[6] == 0 && p[7] == 0
    &&& p[8] == 1
    &&& p[9] == 1
}

/// The packet the bot sends in answer to a server chat packet (command
/// 0x26): a chat message `1` for the message it answers, none otherwise.
/// The packet's header is its first ten bytes: command, chat type,
/// language, unit type, unit id (four bytes), colour, sub type.
pub fn Handle_D2GS_CHAT_26(payload: &[u8]) -> (r: Option<Vec<u8>>)
    requires
        payload@.len() >= 10,
    ensures
        is_answered_chat(payload@) ==> (r matches Some(v) && v@ == chat_reply_packet()),
        !is_answered_chat(payload@) ==> r is None,
{
    if payload[1] != 3 {
        return None;
    }
    if payload[2] != 0 {
        return None;
    }
    if payload[3] != 0 {
        return None;
    }
    if payload[4] != 0 || payload[5] != 0 || payload[6] != 0 || payload[7] != 0 {
        return None;
    }
    if payload[8] != 1 {
        return None;
    }
    if payload[9] != 1 {
        return None;
    }
    let v: Vec<u8> = vec![0x15u8, 0x01u8, 0x09u8, 0x31u8, 0x00u8, 0x00u8, 0x00u8];
    assert(v@ =~= chat_reply_packet());
    Some(v)
}

impl HelperBot {
    /// Nothing on its way, no refill waiting, no free belt slot.
    pub fn new() -> (b: HelperBot)
        ensures
            b.items_removing@ == Map::<u32, u64>::empty(),
            b.next_fill_belt_timestamp == 0,
            b.belt_free_slots == 0,
    {
        HelperBot { items_removing: HashMap::new(), next_fill_belt_timestamp: 0, belt_free_slots: 0 }
    }

    /// Joining a game forgets the free belt slots.
    pub fn on_join_game(&mut self)
        ensures
            final(self).belt_free_slots == 0,
            final(self).items_removing@ == old(self).items_removing@,
            final(self).next_fill_belt_timestamp == old(self).next_fill_belt_timestamp,
    {
        self.belt_free_slots = 0;
    }

    /// One step of the belt refill at time `now`, given whether the cursor
    /// holds an item, whether there is a player, and the inventory's items
    /// in order. Returns the item to send to the belt, if any.
    ///
    /// When a belt slot is free and the interval has passed, the next
    /// refill is put at `now + 500`. When, besides, the cursor is empty and
    /// there is a player, the items on their way keep only the entries
    /// whose time is before `now`, a free slot is used up, and the first
    /// candidate item, if any, is sent and recorded until `now + 5000`.
    pub fn on_auto_item_to_belt(
        &mut self,
        now: u64,
        cursor_has_item: bool,
        has_player: bool,
        items: &Vec<InventoryItem>,
    ) -> (r: Option<u32>)
        requires
            now <= u64::MAX - ITEM_REMOVING_DELAY,
        ensures
            ({
                let o = *old(self);
                let f = *final(self);
                let interval_passed = o.belt_free_slots != 0 && o.next_fill_belt_timestamp <= now;
                let kept = keep_before(o.items_removing@, now);
                if !interval_passed {
                    &&& r is None
                    &&& f.items_removing@ == o.items_removing@
                    &&& f.next_fill_belt_timestamp == o.next_fill_belt_timestamp
                    &&& f.belt_free_slots == o.belt_free_slots
                } else if cursor_has_item || !has_player {
                    &&& r is None
                    &&& f.items_removing@ == o.items_removing@
                    &&& f.next_fill_belt_timestamp == now + AUTO_FILL_INTERVAL
                    &&& f.belt_free_slots == o.belt_free_slots
                } else {
                    &&& f.next_fill_belt_timestamp == now + AUTO_FILL_INTERVAL
                    &&& f.belt_free_slots == o.belt_free_slots - 1
                    &&& match first_refill_candidate(items@, kept) {
                        Some(i) => {
                            &&& r == Some(items@[i].unit_id)
                            &&& f.items_removing@ == kept.insert(items@[i].unit_id, (now + ITEM_REMOVING_DELAY) as u64)
                        },
                        None => r is None && f.items_removing@ == kept,
                    }
                }
            }),
    {
        if self.belt_free_slots == 0 {
            return None;
        }
        if self.next_fill_belt_timestamp > now {
            return None;
        }
        self.next_fill_belt_timestamp = now + AUTO_FILL_INTERVAL;
        if cursor_has_item {
            return None;
        }
        if !has_player {
            return None;
        }
        let kept = keep_entries_before(&self.items_removing, now);
        self.items_removing = kept;
        self.belt_free_slots = self.belt_free_slots - 1;
        let found = find_refill_candidate(items, &self.items_removing);
        match found {
            Some(i) => {
                let id = items[i].unit_id;
                self.items_removing.insert(id, now + ITEM_REMOVING_DELAY);
                Some(id)
            },
            None => None,
        }
    }

    /// The belt refill's hot key: on key `toggle_key` the refill is switched
    /// on or off and the key is taken (`true`); other keys change nothing and
    /// go on to the next handler.
    pub fn on_toggle_key(&self, cfg: &mut TweaksConfig, toggle_key: u16, vk: u16) -> (handled: bool)
        ensures
            handled == (vk == toggle_key),
            final(cfg).auto_item_to_belt == (if vk == toggle_key {
                !old(cfg).auto_item_to_belt
            } else {
                old(cfg).auto_item_to_belt
            }),
            final(cfg).perm_show_items == old(cfg).perm_show_items,
    {
        if vk == toggle_key {
            cfg.auto_item_to_belt = !cfg.auto_item_to_belt;
            return true;
        }
        false
    }

    /// An item action from the server while the belt refill is on: an item
    /// put in the belt is no longer on its way; an item taken out of the
    /// belt, with the cursor empty, frees a belt slot.
    pub fn on_use_stackable_item(&mut self, auto_item_to_belt: bool, state: ItemStateEvent, cursor_has_item: bool)
        requires
            old(self).belt_free_slots < u32::MAX,
        ensures
            ({
                let o = *old(self);
                let f = *final(self);
                if !auto_item_to_belt {
                    f.items_removing@ == o.items_removing@ && f.belt_free_slots == o.belt_free_slots
                } else if state.put_in_belt {
                    f.items_removing@ == o.items_removing@.remove(state.unit_id) && f.belt_free_slots
                        == o.belt_free_slots
                } else if !state.remove_from_belt || cursor_has_item {
                    f.items_removing@ == o.items_removing@ && f.belt_free_slots == o.belt_free_slots
                } else {
                    f.items_removing@ == o.items_removing@ && f.belt_free_slots == o.belt_free_slots + 1
                }
            }),
            final(self).next_fill_belt_timestamp == old(self).next_fill_belt_timestamp,
    {
        if auto_item_to_belt == false {
            return;
        }
        if state.put_in_belt {
            self.items_removing.remove(&state.unit_id);
            return;
        }
        if state.remove_from_belt == false {
            return;
        }
        if cursor_has_item {
            return;
        }
        self.belt_free_slots = self.belt_free_slots + 1;
    }
}

} // verus!
