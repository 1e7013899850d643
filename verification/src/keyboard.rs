//! Which keystrokes the low-level keyboard hook swallows.
use crate::config::{flag_enabled, flag_or_off, Config};
use vstd::prelude::*;

verus! {

/// Windows virtual-key code of the Tab key.
pub const VK_TAB: u32 = 0x09;
/// Windows virtual-key code of the Ctrl key.
pub const VK_CONTROL: u32 = 0x11;
/// Windows virtual-key code of the Esc key.
pub const VK_ESCAPE: u32 = 0x1B;
/// Windows virtual-key code of the left Windows key.
pub const VK_LWIN: u32 = 0x5B;
/// Windows virtual-key code of the right Windows key.
pub const VK_RWIN: u32 = 0x5C;
/// Windows virtual-key code of the F4 key.
pub const VK_F4: u32 = 0x73;
/// Flag of a low-level keyboard event: Alt was down.
pub const LLKHF_ALTDOWN: u32 = 0x20;
/// Hook code under which an event may be processed (others go on unseen).
pub const HC_ACTION: i32 = 0;

/// The key combinations the hook blocks.
#[derive(Clone, Copy, Debug, PartialEq, Eq)]
pub struct KeyBlockSettings {
    pub block_win_keys: bool,
    pub block_alt_tab: bool,
    pub block_alt_f4: bool,
    pub block_ctrl_esc: bool,
}

/// Whether the Alt-down flag is set in a low-level keyboard event's flags.
pub fn alt_down(flags: u32) -> (r: bool)
    ensures
        r == (flags & LLKHF_ALTDOWN != 0),
{
    flags & LLKHF_ALTDOWN != 0
}

/// Whether a key is held, from a `GetAsyncKeyState` result: its top bit.
pub fn key_held(state: i16) -> (r: bool)
    ensures
        r == (state < 0),
{
    let bits: u16 = state as u16;
    let r = bits & 0x8000 != 0;
    assert(r == (state < 0)) by (bit_vector)
        requires
            bits == state as u16,
            r == (bits & 0x8000 != 0),
    ;
    r
}

impl KeyBlockSettings {
    /// The blocking rules a configuration asks for; a rule left out is off.
    pub fn from_config(cfg: &Config) -> (r: KeyBlockSettings)
        ensures
            r.block_win_keys == flag_or_off(cfg.block_win_keys),
            r.block_alt_tab == flag_or_off(cfg.block_alt_tab),
            r.block_alt_f4 == flag_or_off(cfg.block_alt_f4),
            r.block_ctrl_esc == flag_or_off(cfg.block_ctrl_esc),
    {
        KeyBlockSettings {
            block_win_keys: flag_enabled(cfg.block_win_keys),
            block_alt_tab: flag_enabled(cfg.block_alt_tab),
            block_alt_f4: flag_enabled(cfg.block_alt_f4),
            block_ctrl_esc: flag_enabled(cfg.block_ctrl_esc),
        }
    }

    pub open spec fn spec_any(&self) -> bool {
        self.block_win_keys || self.block_alt_tab || self.block_alt_f4 || self.block_ctrl_esc
    }

    /// Whether any rule is on, so that the hook is worth installing.
    pub fn any(&self) -> (r: bool)
        ensures
            r == self.spec_any(),
    {
        self.block_win_keys || self.block_alt_tab || self.block_alt_f4 || self.block_ctrl_esc
    }

    /// Whether the hook swallows an event with this hook code, virtual key,
    /// Alt state and Ctrl state. Key-down and key-up are treated alike.
    pub open spec fn spec_swallows(&self, code: i32, vk: u32, alt: bool, ctrl: bool) -> bool {
        &&& code == HC_ACTION
        &&& {
            ||| (vk == VK_LWIN || vk == VK_RWIN) && self.block_win_keys
            ||| vk == VK_TAB && alt && self.block_alt_tab
            ||| vk == VK_F4 && alt && self.block_alt_f4
            ||| vk == VK_ESCAPE && ctrl && self.block_ctrl_esc
        }
    }

    /// Whether the hook swallows a low-level keyboard event (hook code, the
    /// event's virtual-key code and flags, and whether Ctrl is held); a
    /// swallowed event never reaches the system.
    pub fn swallows(&self, code: i32, vk: u32, flags: u32, ctrl_down: bool) -> (r: bool)
        ensures
            r == self.spec_swallows(code, vk, flags & LLKHF_ALTDOWN != 0, ctrl_down),
    {
        if code != HC_ACTION {
            return false;
        }
        let alt = alt_down(flags);
        if (vk == VK_LWIN || vk == VK_RWIN) && self.block_win_keys {
            return true;
        }
        if vk == VK_TAB && alt && self.block_alt_tab {
            return true;
        }
        if vk == VK_F4 && alt && self.block_alt_f4 {
            return true;
        }
        if vk == VK_ESCAPE && ctrl_down && self.block_ctrl_esc {
            return true;
        }
        false
    }
}

/// With every rule off, no event is swallowed; and whatever the rules, an
/// event whose hook code is not `HC_ACTION` passes.
pub proof fn lemma_hook_passes_unblocked(s: KeyBlockSettings, code: i32, vk: u32, alt: bool, ctrl: bool)
    ensures
        !s.spec_any() ==> !s.spec_swallows(code, vk, alt, ctrl),
        code != HC_ACTION ==> !s.spec_swallows(code, vk, alt, ctrl),
{
}

/// Only the four blocked keys can be swallowed: every other key passes.
pub proof fn lemma_only_blocked_keys(s: KeyBlockSettings, code: i32, vk: u32, alt: bool, ctrl: bool)
    requires
        s.spec_swallows(code, vk, alt, ctrl),
    ensures
        vk == VK_LWIN || vk == VK_RWIN || vk == VK_TAB || vk == VK_F4 || vk == VK_ESCAPE,
{
}

/// Each rule blocks its own key combination, whatever the other three rules
/// are: for a processable event (`HC_ACTION`), a Windows key is swallowed
/// exactly when `block_win_keys` is on; Tab exactly when Alt is down and
/// `block_alt_tab` is on; F4 exactly when Alt is down and `block_alt_f4` is on;
/// Esc exactly when Ctrl is held and `block_ctrl_esc` is on. Key-down and
/// key-up are not told apart.
pub proof fn lemma_each_rule_blocks_its_keys(s: KeyBlockSettings, alt: bool, ctrl: bool)
    ensures
        s.spec_swallows(0, 0x5B, alt, ctrl) == s.block_win_keys,
        s.spec_swallows(0, 0x5C, alt, ctrl) == s.block_win_keys,
        s.spec_swallows(0, 0x09, alt, ctrl) == (alt && s.block_alt_tab),
        s.spec_swallows(0, 0x73, alt, ctrl) == (alt && s.block_alt_f4),
        s.spec_swallows(0, 0x1B, alt, ctrl) == (ctrl && s.block_ctrl_esc),
{
}

/// Turning a rule on never lets through an event that was swallowed before:
/// swallowing is monotone in the rules.
pub proof fn lemma_more_rules_block_more(s: KeyBlockSettings, t: KeyBlockSettings, code: i32, vk: u32, alt: bool, ctrl: bool)
    requires
        s.block_win_keys ==> t.block_win_keys,
        s.block_alt_tab ==> t.block_alt_tab,
        s.block_alt_f4 ==> t.block_alt_f4,
        s.block_ctrl_esc ==> t.block_ctrl_esc,
        s.spec_swallows(code, vk, alt, ctrl),
    ensures
        t.spec_swallows(code, vk, alt, ctrl),
{
}

/// The hook is installed for a configuration exactly when one of its four key
/// rules is set to `true`, and each rule is on exactly when set to `true`.
pub proof fn lemma_rules_from_config(cfg: Config, k: KeyBlockSettings)
    requires
        k.block_win_keys == flag_or_off(cfg.block_win_keys),
        k.block_alt_tab == flag_or_off(cfg.block_alt_tab),
        k.block_alt_f4 == flag_or_off(cfg.block_alt_f4),
        k.block_ctrl_esc == flag_or_off(cfg.block_ctrl_esc),
    ensures
        k.block_win_keys == (cfg.block_win_keys == Some(true)),
        k.block_alt_tab == (cfg.block_alt_tab == Some(true)),
        k.block_alt_f4 == (cfg.block_alt_f4 == Some(true)),
        k.block_ctrl_esc == (cfg.block_ctrl_esc == Some(true)),
        k.spec_any() == (cfg.block_win_keys == Some(true) || cfg.block_alt_tab == Some(true)
            || cfg.block_alt_f4 == Some(true) || cfg.block_ctrl_esc == Some(true)),
{
}

} // verus!
