//! The state recorded between runs: "normal" after an authorised exit, anything
//! else while the client runs or after it was killed.
use vstd::prelude::*;

verus! {

/// The status an authorised exit leaves behind.
pub const NORMAL_STATUS: &'static str = "normal";

/// The status written at start-up, replaced on an authorised exit.
pub const ABNORMAL_STATUS: &'static str = "abnormal";

/// The content of the state file.
#[derive(Debug)]
pub struct StateFile {
    pub status: String,
}

impl StateFile {
    /// Whether this state records an authorised exit.
    pub open spec fn spec_is_normal(&self) -> bool {
        self.status@ == NORMAL_STATUS@
    }

    /// The state an authorised exit writes.
    pub fn normal() -> (r: StateFile)
        ensures
            r.status@ == NORMAL_STATUS@,
            r.spec_is_normal(),
    {
        StateFile { status: NORMAL_STATUS.to_owned() }
    }

    /// The state written at start-up, until an authorised exit replaces it.
    pub fn abnormal() -> (r: StateFile)
        ensures
            r.status@ == ABNORMAL_STATUS@,
            !r.spec_is_normal(),
    {
        proof {
            reveal_strlit("normal");
            reveal_strlit("abnormal");
            assert(NORMAL_STATUS@.len() != ABNORMAL_STATUS@.len());
        }
        StateFile { status: ABNORMAL_STATUS.to_owned() }
    }

    /// Whether this state records an authorised exit.
    pub fn is_normal(&self) -> (r: bool)
        ensures
            r == self.spec_is_normal(),
    {
        let normal = NORMAL_STATUS.to_owned();
        self.status == normal
    }
}

/// What was found where the state file should be.
#[derive(Debug)]
pub enum StateFileProbe {
    /// There is no state file.
    Missing,
    /// The file exists but could not be read; holds the error text.
    ReadFailed(String),
    /// The file opened and parsed to this state.
    Decoded(StateFile),
    /// The file could not be opened or parsed (damaged, forged, or foreign).
    Undecodable,
}

/// Whether the last run ended with an authorised exit: a missing or
/// undecodable file counts as abnormal, an unreadable one is an error.
pub open spec fn spec_state_verdict(probe: StateFileProbe) -> Result<bool, String> {
    match probe {
        StateFileProbe::Missing => Ok(false),
        StateFileProbe::ReadFailed(e) => Err(e),
        StateFileProbe::Decoded(s) => Ok(s.spec_is_normal()),
        StateFileProbe::Undecodable => Ok(false),
    }
}

/// Whether the last run ended with an authorised exit: a missing or
/// undecodable file counts as abnormal, an unreadable one is an error.
pub fn state_check_verdict(probe: StateFileProbe) -> (r: Result<bool, String>)
    ensures
        r == spec_state_verdict(probe),
{
    match probe {
        StateFileProbe::Missing => Ok(false),
        StateFileProbe::ReadFailed(e) => Err(e),
        StateFileProbe::Decoded(s) => Ok(s.is_normal()),
        StateFileProbe::Undecodable => Ok(false),
    }
}

/// A state records an authorised exit exactly when its status is the text
/// `normal`, letter for letter.
pub proof fn lemma_normal_means_status_normal(s: StateFile)
    ensures
        s.spec_is_normal() <==> s.status@ == seq!['n', 'o', 'r', 'm', 'a', 'l'],
{
    reveal_strlit("normal");
    assert(NORMAL_STATUS@ =~= seq!['n', 'o', 'r', 'm', 'a', 'l']);
}

/// The verdict is "normal exit" only for a decoded normal state; a missing or
/// undecodable file, or any other state, gives "abnormal"; a read error is
/// passed on unchanged.
pub proof fn lemma_verdict_cases(probe: StateFileProbe)
    ensures
        spec_state_verdict(probe) == Ok::<bool, String>(true) <==> (probe matches StateFileProbe::Decoded(s) && s.spec_is_normal()),
        spec_state_verdict(probe) == Ok::<bool, String>(false) <==> (probe is Missing || probe is Undecodable
            || (probe matches StateFileProbe::Decoded(s) && !s.spec_is_normal())),
        probe matches StateFileProbe::ReadFailed(e) ==> spec_state_verdict(probe) == Err::<bool, String>(e),
{
}

} // verus!
