use vstd::prelude::*;

verus! {

/// bcrypt hash (cost 12) of the built-in administrator password, used when the
/// configuration names none.
pub const DEFAULT_ADMIN_HASH: &'static str = "$2y$12$yo8M7GzPhHAQhfw29IXC7OBEU5bQyMmY5BVhiun.SyYpIt8T0C3pS";

/// The client's configuration, as read from `exam_config.json`. Every field is
/// optional in the file.
#[derive(Debug)]
pub struct Config {
    pub exam_url: Option<String>,
    pub fullscreen: Option<bool>,
    pub always_on_top: Option<bool>,
    pub disable_taskmgr: Option<bool>,
    pub disable_lockworkstation: Option<bool>,
    pub disable_change_password: Option<bool>,
    pub block_win_keys: Option<bool>,
    pub block_alt_tab: Option<bool>,
    pub block_alt_f4: Option<bool>,
    pub block_ctrl_esc: Option<bool>,
    pub enable_state_check: Option<bool>,
    pub admin_hash: Option<String>,
}

/// A switch of the configuration that is off when the file leaves it out.
pub open spec fn flag_or_off(flag: Option<bool>) -> bool {
    match flag {
        Some(b) => b,
        None => false,
    }
}

/// Reads a switch of the configuration, off when the file leaves it out.
pub fn flag_enabled(flag: Option<bool>) -> (r: bool)
    ensures
        r == flag_or_off(flag),
{
    match flag {
        Some(b) => b,
        None => false,
    }
}

impl Config {
    /// The administrator hash in force: the configured one, else the built-in one.
    pub open spec fn spec_admin_hash(&self) -> Seq<char> {
        match self.admin_hash {
            Some(h) => h@,
            None => DEFAULT_ADMIN_HASH@,
        }
    }

    /// The administrator hash in force: the configured one, else the built-in one.
    pub fn admin_hash(&self) -> (r: &str)
        ensures
            r@ == self.spec_admin_hash(),
    {
        match &self.admin_hash {
            Some(h) => h.as_str(),
            None => DEFAULT_ADMIN_HASH,
        }
    }

    /// Whether start-up checks the state file for an abnormal previous exit.
    pub fn state_check_enabled(&self) -> (r: bool)
        ensures
            r == flag_or_off(self.enable_state_check),
    {
        flag_enabled(self.enable_state_check)
    }

    /// The configuration used when no file is found: no exam address, every
    /// restriction on, and the built-in administrator hash.
    pub open spec fn is_default(&self) -> bool {
        &&& self.exam_url is None
        &&& self.fullscreen == Some(true)
        &&& self.always_on_top == Some(true)
        &&& self.disable_taskmgr == Some(true)
        &&& self.disable_lockworkstation == Some(true)
        &&& self.disable_change_password == Some(true)
        &&& self.block_win_keys == Some(true)
        &&& self.block_alt_tab == Some(true)
        &&& self.block_alt_f4 == Some(true)
        &&& self.block_ctrl_esc == Some(true)
        &&& self.enable_state_check == Some(true)
        &&& self.admin_hash matches Some(h) && h@ == DEFAULT_ADMIN_HASH@
    }
}

impl Default for Config {
    fn default() -> (r: Config)
        ensures
            r.is_default(),
    {
        Config {
            exam_url: None,
            fullscreen: Some(true),
            always_on_top: Some(true),
            disable_taskmgr: Some(true),
            disable_lockworkstation: Some(true),
            disable_change_password: Some(true),
            block_win_keys: Some(true),
            block_alt_tab: Some(true),
            block_alt_f4: Some(true),
            block_ctrl_esc: Some(true),
            enable_state_check: Some(true),
            admin_hash: Some(DEFAULT_ADMIN_HASH.to_owned()),
        }
    }
}

/// A switch is on exactly when the configuration sets it to `true`; an unset
/// switch counts as off.
pub proof fn lemma_flag_on_iff_set_true(flag: Option<bool>)
    ensures
        flag_or_off(flag) <==> flag == Some(true),
        !flag_or_off(None),
{
}

/// The hash in force is the configured one when there is one, and the built-in
/// one otherwise.
pub proof fn lemma_admin_hash_in_force(cfg: Config)
    ensures
        cfg.admin_hash matches Some(h) ==> cfg.spec_admin_hash() == h@,
        cfg.admin_hash is None ==> cfg.spec_admin_hash() == DEFAULT_ADMIN_HASH@,
{
}

} // verus!
