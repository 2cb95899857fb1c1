use vstd::prelude::*;
use crate::error::GameError;

verus! {

/// The administrator, once one is recorded, and the global pause flag.
#[derive(Clone, Debug)]
pub struct AdminConfig {
    pub admin: Option<String>,
    pub paused: bool,
}

/// The configuration as a mathematical value.
pub struct AdminView {
    pub admin: Option<Seq<char>>,
    pub paused: bool,
}

impl View for AdminConfig {
    type V = AdminView;

    open spec fn view(&self) -> AdminView {
        AdminView {
            admin: match self.admin {
                Some(admin) => Some(admin@),
                None => None,
            },
            paused: self.paused,
        }
    }
}

impl AdminView {
    /// The configuration before anything was recorded: no administrator,
    /// not paused.
    pub open spec fn initial() -> AdminView {
        AdminView { admin: None, paused: false }
    }

    /// The error with which recording an administrator is refused, if it is.
    pub open spec fn initialize_error(self) -> Option<GameError> {
        if self.admin is Some {
            Some(GameError::AlreadyInitialized)
        } else {
            None
        }
    }

    /// The error with which a change of the pause flag is refused, if it is.
    /// `authorized` tells whether the recorded administrator authorized the
    /// call.
    pub open spec fn set_paused_error(self, authorized: bool) -> Option<GameError> {
        if self.admin is None {
            Some(GameError::NotInitialized)
        } else if !authorized {
            Some(GameError::Unauthorized)
        } else {
            None
        }
    }

    /// The error with which a gated operation is refused before it looks at
    /// anything else, if it is: the pause flag first, then the authorization.
    pub open spec fn gate_error(self, authorized: bool) -> Option<GameError> {
        if self.paused {
            Some(GameError::ContractPaused)
        } else if !authorized {
            Some(GameError::Unauthorized)
        } else {
            None
        }
    }
}

impl AdminConfig {
    /// The configuration before anything was recorded.
    pub fn new() -> (config: AdminConfig)
        ensures
            config@ == AdminView::initial(),
    {
        AdminConfig { admin: None, paused: false }
    }
}

/// Records the administrator. Whoever asks first is recorded; nobody is
/// asked to authorize it. Once one is recorded, every later call is refused
/// with `AlreadyInitialized`.
pub fn initialize(config: &mut AdminConfig, admin: String) -> (res: Result<(), GameError>)
    ensures
        match old(config)@.initialize_error() {
            Some(error) => res == Err::<(), GameError>(error) && final(config)@ == old(config)@,
            None => res is Ok && final(config)@ == (AdminView {
                admin: Some(admin@),
                ..old(config)@
            }),
        },
{
    if config.admin.is_some() {
        return Err(GameError::AlreadyInitialized);
    }
    config.admin = Some(admin);
    Ok(())
}

/// Sets the pause flag. Refused with `NotInitialized` where no
/// administrator is recorded, else with `Unauthorized` where the
/// administrator did not authorize the call. The pause flag itself does not
/// gate this operation.
pub fn set_paused(config: &mut AdminConfig, authorized: bool, paused: bool) -> (res: Result<
    (),
    GameError,
>)
    ensures
        match old(config)@.set_paused_error(authorized) {
            Some(error) => res == Err::<(), GameError>(error) && final(config)@ == old(config)@,
            None => res is Ok && final(config)@ == (AdminView { paused, ..old(config)@ }),
        },
{
    if config.admin.is_none() {
        return Err(GameError::NotInitialized);
    }
    if !authorized {
        return Err(GameError::Unauthorized);
    }
    config.paused = paused;
    Ok(())
}

/// Whether the pause flag is set. It is not until somebody sets it.
pub fn is_paused(config: &AdminConfig) -> (paused: bool)
    ensures
        paused == config@.paused,
{
    config.paused
}

/// The interlock in front of every gated operation: refuses with
/// `ContractPaused` exactly when the pause flag is set.
pub fn check_paused(config: &AdminConfig) -> (res: Result<(), GameError>)
    ensures
        res == if config@.paused {
            Err::<(), GameError>(GameError::ContractPaused)
        } else {
            Ok::<(), GameError>(())
        },
{
    if is_paused(config) {
        Err(GameError::ContractPaused)
    } else {
        Ok(())
    }
}

/// The entry check of an operation that both the pause flag and the
/// authorization guard: the pause flag is looked at first, then whether the
/// owner authorized the call.
pub fn check_gate(config: &AdminConfig, authorized: bool) -> (res: Result<(), GameError>)
    ensures
        res == match config@.gate_error(authorized) {
            Some(error) => Err::<(), GameError>(error),
            None => Ok::<(), GameError>(()),
        },
{
    match check_paused(config) {
        Err(error) => Err(error),
        Ok(()) => if authorized {
            Ok(())
        } else {
            Err(GameError::Unauthorized)
        },
    }
}

} // verus!
