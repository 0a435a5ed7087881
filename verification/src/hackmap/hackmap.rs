//! The hack map as a whole: its configuration and the state of its parts.
use vstd::prelude::*;

use crate::d2api::d2ex::D2SigmaEx;
use crate::hackmap::config::{is_default_config, Config};
use crate::consts::D2UIvars;
use crate::d2api::d2client::{ui_vars_complete, GetUIVar, UIVars};
use crate::d2api::d2win::StormMsgHandlerParams;
use crate::hackmap::helper_bot::HelperBot;
use crate::hackmap::input::{key_for_handlers, key_for_handlers_spec, run_key_handlers, Input, KeyAction, KeyHandler};
use crate::hackmap::tweaks::Tweaks;
use crate::hackmap::unit_color::UnitColor;

verus! {

/// Switches of the hack map kept apart from the configuration file.
pub struct HackMapConfig {
    pub perm_show_items_toggle: bool,
}

impl HackMapConfig {
    /// Ground items shown permanently.
    pub fn new() -> (c: HackMapConfig)
        ensures
            c.perm_show_items_toggle,
    {
        HackMapConfig { perm_show_items_toggle: true }
    }
}

/// The hack map: its configuration and the state of its parts.
pub struct HackMap {
    pub config: Config,
    pub input: Input,
    pub tweaks: Tweaks,
    pub unit_color: UnitColor,
    pub helper_bot: HelperBot,
    pub sigma: D2SigmaEx,
}

impl HackMap {
    /// The hack map before the configuration file is read: the default
    /// configuration and fresh parts.
    pub fn new() -> (h: HackMap)
        ensures
            is_default_config(h.config),
            h.input.on_keydown_callbacks@ == Seq::<KeyHandler>::empty(),
            h.tweaks.current_monster_name@ == Seq::<u16>::empty(),
            h.unit_color.boss_monster_id@ == Map::<u32, u32>::empty(),
            h.helper_bot.items_removing@ == Map::<u32, u64>::empty(),
            h.helper_bot.next_fill_belt_timestamp == 0,
            h.helper_bot.belt_free_slots == 0,
            !h.sigma.capturing(),
            h.sigma.captured() == Seq::<char>::empty(),
    {
        HackMap {
            config: Config::new(),
            input: Input::new(),
            tweaks: Tweaks::new(),
            unit_color: UnitColor::new(),
            helper_bot: HelperBot::new(),
            sigma: D2SigmaEx::new(),
        }
    }

    /// The configuration.
    pub fn config(&self) -> (r: &Config)
        ensures
            *r == self.config,
    {
        &self.config
    }

    /// The key handlers.
    pub fn input(&self) -> (r: &Input)
        ensures
            *r == self.input,
    {
        &self.input
    }

    /// Registers the hack map's key handlers in the order its parts set
    /// them up: the tweaks' toggle, the helper bot's belt refill toggle and
    /// fast-drop key, then the configuration reload.
    pub fn register_key_handlers(&mut self)
        ensures
            final(self).input.on_keydown_callbacks@ == old(self).input.on_keydown_callbacks@.push(
                KeyHandler::PermShowItemsToggle,
            ).push(KeyHandler::AutoItemToBeltToggle).push(KeyHandler::FastDrop).push(KeyHandler::ReloadConfig),
            final(self).config == old(self).config,
    {
        self.input.on_key_down(KeyHandler::PermShowItemsToggle);
        self.input.on_key_down(KeyHandler::AutoItemToBeltToggle);
        self.input.on_key_down(KeyHandler::FastDrop);
        self.input.on_key_down(KeyHandler::ReloadConfig);
    }

    /// A key-down message in game: the key, if any reaches the handlers
    /// (see `key_for_handlers`), goes to each handler in order until one
    /// takes it; the switches are updated and the actions asked for are
    /// returned.
    pub fn in_game_on_key_down(&mut self, msg: &StormMsgHandlerParams, vars: &UIVars) -> (actions: Vec<KeyAction>)
        requires
            ui_vars_complete(*vars),
        ensures
            ({
                let key = key_for_handlers_spec(
                    *msg,
                    vars.values@[D2UIvars::ChatBox.index_spec() as int],
                    vars.values@[D2UIvars::EscMenu.index_spec() as int],
                    vars.values@[D2UIvars::HoldAlt.index_spec() as int],
                );
                match key {
                    None => {
                        &&& actions@ == Seq::<KeyAction>::empty()
                        &&& final(self).config.tweaks.perm_show_items == old(self).config.tweaks.perm_show_items
                        &&& final(self).config.tweaks.auto_item_to_belt == old(self).config.tweaks.auto_item_to_belt
                    },
                    Some(vk) => {
                        let (acts, perm, auto, _taken) = run_key_handlers(
                            old(self).input.on_keydown_callbacks@,
                            vk,
                            old(self).config.hotkey,
                            old(self).config.tweaks.perm_show_items,
                            old(self).config.tweaks.auto_item_to_belt,
                        );
                        &&& actions@ == acts
                        &&& final(self).config.tweaks.perm_show_items == perm
                        &&& final(self).config.tweaks.auto_item_to_belt == auto
                    },
                }
            }),
            final(self).config.hotkey == old(self).config.hotkey,
            final(self).config.unit_color == old(self).config.unit_color,
            final(self).input == old(self).input,
    {
        let mut actions: Vec<KeyAction> = Vec::new();
        let chat_box = GetUIVar(vars, D2UIvars::ChatBox);
        let esc_menu = GetUIVar(vars, D2UIvars::EscMenu);
        let hold_alt = GetUIVar(vars, D2UIvars::HoldAlt);
        let vk = match key_for_handlers(msg, chat_box, esc_menu, hold_alt) {
            Some(vk) => vk,
            None => return actions,
        };
        let ghost handlers = self.input.on_keydown_callbacks@;
        let ghost perm0 = self.config.tweaks.perm_show_items;
        let ghost auto0 = self.config.tweaks.auto_item_to_belt;
        let mut taken = false;
        let mut i: usize = 0;
        while i < self.input.on_keydown_callbacks.len()
            invariant
                i <= self.input.on_keydown_callbacks@.len(),
                self.input.on_keydown_callbacks@ == handlers,
                self.config.hotkey == old(self).config.hotkey,
                self.config.unit_color == old(self).config.unit_color,
                self.input == old(self).input,
                handlers == old(self).input.on_keydown_callbacks@,
                perm0 == old(self).config.tweaks.perm_show_items,
                auto0 == old(self).config.tweaks.auto_item_to_belt,
                run_key_handlers(handlers.take(i as int), vk, self.config.hotkey, perm0, auto0) == (
                    actions@,
                    self.config.tweaks.perm_show_items,
                    self.config.tweaks.auto_item_to_belt,
                    taken,
                ),
            decreases handlers.len() - i,
        {
            assert(handlers.take(i + 1).drop_last() =~= handlers.take(i as int));
            let handler = self.input.on_keydown_callbacks[i];
            if !taken {
                match handler {
                    KeyHandler::ReloadConfig => {
                        if self.is_reload_key(vk) {
                            actions.push(KeyAction::ReloadConfig);
                        }
                    },
                    KeyHandler::PermShowItemsToggle => {
                        taken = self.tweaks.on_key_down(&mut self.config.tweaks, vk);
                    },
                    KeyHandler::AutoItemToBeltToggle => {
                        let toggle_key = self.config.hotkey.auto_item_to_belt;
                        taken = self.helper_bot.on_toggle_key(&mut self.config.tweaks, toggle_key, vk);
                    },
                    KeyHandler::FastDrop => {
                        if vk == self.config.hotkey.fast_drop {
                            actions.push(KeyAction::FastDrop);
                        }
                    },
                }
            }
            i = i + 1;
        }
        assert(handlers.take(handlers.len() as int) =~= handlers);
        actions
    }

    /// The game tweaks' state.
    pub fn tweaks(&self) -> (r: &Tweaks)
        ensures
            *r == self.tweaks,
    {
        &self.tweaks
    }

    /// The automap markers' state.
    pub fn unit_color(&self) -> (r: &UnitColor)
        ensures
            *r == self.unit_color,
    {
        &self.unit_color
    }

    /// The helper bot's state.
    pub fn helper_bot(&self) -> (r: &HelperBot)
        ensures
            *r == self.helper_bot,
    {
        &self.helper_bot
    }

    /// Whether key `vk` asks for the configuration file to be read again.
    pub fn is_reload_key(&self, vk: u16) -> (r: bool)
        ensures
            r == (vk == self.config.hotkey.reload),
    {
        vk == self.config.hotkey.reload
    }
}

} // verus!
