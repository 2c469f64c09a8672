//! Decisions of the auto-update flow. The host runtime owns the update
//! mechanism and reports what happened as an event; the functions here turn
//! each event into the reply the UI receives, so the branching is proved while
//! the downloading stays with the host.

use vstd::prelude::*;

verus! {

/// What the host reported when asked whether an update exists.
pub enum UpdateCheckEvent {
    /// The update mechanism itself could not be reached, with its message.
    UpdaterUnavailable(String),
    /// The check ran and failed, with its message.
    CheckFailed(String),
    /// The check ran and found an update.
    UpdateFound,
    /// The check ran and found none.
    NoUpdate,
}

/// The reply to an update check: whether an update exists, or why the check
/// could not say.
pub fn update_check_outcome(event: &UpdateCheckEvent) -> (r: Result<bool, String>)
    ensures
        match event {
            UpdateCheckEvent::UpdateFound => r == Ok::<bool, String>(true),
            UpdateCheckEvent::NoUpdate => r == Ok::<bool, String>(false),
            UpdateCheckEvent::CheckFailed(m) => r matches Err(e) && e@
                == "Ошибка проверки обновлений: "@ + m@,
            UpdateCheckEvent::UpdaterUnavailable(m) => r matches Err(e) && e@
                == "Updater не доступен: "@ + m@,
        },
{
    match event {
        UpdateCheckEvent::UpdateFound => Ok(true),
        UpdateCheckEvent::NoUpdate => Ok(false),
        UpdateCheckEvent::CheckFailed(m) => {
            let mut e = String::from_str("Ошибка проверки обновлений: ");
            e.append(m.as_str());
            Err(e)
        },
        UpdateCheckEvent::UpdaterUnavailable(m) => {
            let mut e = String::from_str("Updater не доступен: ");
            e.append(m.as_str());
            Err(e)
        },
    }
}

/// What the host reported from a download-and-install attempt.
pub enum InstallEvent {
    /// The update mechanism itself could not be reached, with its message.
    UpdaterUnavailable(String),
    /// The preceding check failed, with its message.
    CheckFailed(String),
    /// The check found nothing to install.
    NoUpdate,
    /// The download or the installation failed, with its message.
    InstallFailed(String),
    /// The update was downloaded and installed.
    Installed,
}

/// The reply to an install request: success only when an update was found and
/// installed; finding none is reported as an error, as are all failures.
pub fn install_outcome(event: &InstallEvent) -> (r: Result<(), String>)
    ensures
        match event {
            InstallEvent::Installed => r is Ok,
            InstallEvent::NoUpdate => r matches Err(e) && e@ == "Обновлений не найдено"@,
            InstallEvent::InstallFailed(m) => r matches Err(e) && e@
                == "Ошибка установки обновления: "@ + m@,
            InstallEvent::CheckFailed(m) => r matches Err(e) && e@
                == "Ошибка проверки обновлений: "@ + m@,
            InstallEvent::UpdaterUnavailable(m) => r matches Err(e) && e@
                == "Updater не доступен: "@ + m@,
        },
{
    match event {
        InstallEvent::Installed => Ok(()),
        InstallEvent::NoUpdate => Err(String::from_str("Обновлений не найдено")),
        InstallEvent::InstallFailed(m) => {
            let mut e = String::from_str("Ошибка установки обновления: ");
            e.append(m.as_str());
            Err(e)
        },
        InstallEvent::CheckFailed(m) => {
            let mut e = String::from_str("Ошибка проверки обновлений: ");
            e.append(m.as_str());
            Err(e)
        },
        InstallEvent::UpdaterUnavailable(m) => {
            let mut e = String::from_str("Updater не доступен: ");
            e.append(m.as_str());
            Err(e)
        },
    }
}

} // verus!
