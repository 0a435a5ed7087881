//! Keyboard input in game: which key presses reach the hack map's key
//! handlers, and when the game's key handler is taken over.
use vstd::prelude::*;

use crate::consts::WM_KEYDOWN;
use crate::d2api::d2win::StormMsgHandlerParams;
use crate::hackmap::config::HotKeyConfig;
use crate::hackmap::tweaks::perm_show_after_key;

verus! {

/// The key a key-down message hands to the key handlers; see `key_for_handlers`.
pub open spec fn key_for_handlers_spec(msg: StormMsgHandlerParams, chat_box: i32, esc_menu: i32, hold_alt: i32) -> Option<u16> {
    if msg.returned != 0 || msg.message != WM_KEYDOWN || (msg.lparam / 0x4000_0000) % 2 == 1 {
        None
    } else if chat_box != 0 || esc_menu != 0 || hold_alt != 0 {
        None
    } else {
        Some((msg.wparam % 0x10000) as u16)
    }
}

/// The key a key-down message hands to the hack map's key handlers: none
/// when the message was already handled, is not a key press, repeats a
/// held key, or comes while the chat box, the Esc menu or the Alt display
/// is open (their UI variables not 0).
pub fn key_for_handlers(msg: &StormMsgHandlerParams, chat_box: i32, esc_menu: i32, hold_alt: i32) -> (r: Option<u16>)
    ensures
        r == key_for_handlers_spec(*msg, chat_box, esc_menu, hold_alt),
{
    if msg.returned != 0 || msg.message != WM_KEYDOWN || msg.key_pressed() {
        return None;
    }
    if chat_box != 0 || esc_menu != 0 || hold_alt != 0 {
        return None;
    }
    Some(msg.virtual_key())
}

/// Whether registering a message handler is the moment to take over the
/// game's in-game key-down handler: a handler for key-down messages of
/// type 0, while none is taken over yet.
pub fn should_hook_key_down(msg_type: u32, msg: u32, already_hooked: bool) -> (r: bool)
    ensures
        r == (msg_type == 0 && msg == WM_KEYDOWN && !already_hooked),
{
    msg_type == 0 && msg == WM_KEYDOWN && !already_hooked
}

/// A key handler the hack map registers.
#[derive(Clone, Copy, Debug, PartialEq, Eq, Structural)]
pub enum KeyHandler {
    /// Reads the configuration file again on the reload hot key.
    ReloadConfig,
    /// Switches the permanent display of ground items on Y.
    PermShowItemsToggle,
    /// Switches the belt refill on its hot key, and takes that key.
    AutoItemToBeltToggle,
    /// Drops the item held on the cursor on the fast-drop hot key.
    FastDrop,
}

/// What the host is to do after the key handlers ran.
#[derive(Clone, Copy, Debug, PartialEq, Eq, Structural)]
pub enum KeyAction {
    /// Say "reload cfg" in red and read the configuration file again.
    ReloadConfig,
    /// Drop the item held on the cursor, if there is one.
    FastDrop,
}

/// The handlers run in order on key `vk` until one takes the key; the
/// result is the actions asked for, the permanent display switch, the belt
/// refill switch, and whether a handler took the key (after which no
/// further handler runs). The reload handler asks for a reload on the
/// reload key, the ground-item toggle flips its switch on Y, the belt
/// refill toggle flips its switch on its hot key and takes that key, and
/// the fast-drop handler asks for a drop on its hot key.
pub open spec fn run_key_handlers(
    handlers: Seq<KeyHandler>,
    vk: u16,
    hotkey: HotKeyConfig,
    perm: bool,
    auto: bool,
) -> (Seq<KeyAction>, bool, bool, bool)
    decreases handlers.len(),
{
    if handlers.len() == 0 {
        (Seq::empty(), perm, auto, false)
    } else {
        let (acts, p, a, taken) = run_key_handlers(handlers.drop_last(), vk, hotkey, perm, auto);
        if taken {
            (acts, p, a, taken)
        } else {
            match handlers.last() {
                KeyHandler::ReloadConfig => (
                    if vk == hotkey.reload {
                        acts.push(KeyAction::ReloadConfig)
                    } else {
                        acts
                    },
                    p,
                    a,
                    false,
                ),
                KeyHandler::PermShowItemsToggle => (acts, perm_show_after_key(p, vk), a, false),
                KeyHandler::AutoItemToBeltToggle => if vk == hotkey.auto_item_to_belt {
                    (acts, p, !a, true)
                } else {
                    (acts, p, a, false)
                },
                KeyHandler::FastDrop => (
                    if vk == hotkey.fast_drop {
                        acts.push(KeyAction::FastDrop)
                    } else {
                        acts
                    },
                    p,
                    a,
                    false,
                ),
            }
        }
    }
}

/// The key handlers, in the order they were registered.
pub struct Input {
    pub on_keydown_callbacks: Vec<KeyHandler>,
}

impl Input {
    /// No handler registered.
    pub fn new() -> (i: Input)
        ensures
            i.on_keydown_callbacks@ == Seq::<KeyHandler>::empty(),
    {
        Input { on_keydown_callbacks: Vec::new() }
    }

    /// Registers a key handler after the others.
    pub fn on_key_down(&mut self, handler: KeyHandler)
        ensures
            final(self).on_keydown_callbacks@ == old(self).on_keydown_callbacks@.push(handler),
    {
        self.on_keydown_callbacks.push(handler);
    }
}

} // verus!
