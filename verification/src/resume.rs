//! Choosing the saved game to resume when the game starts: the browser's
//! own save or the cloud's, and what becomes of the cloud-save settings.
//! Reading the saves and asking the player happen around these decisions.
use vstd::prelude::*;
use crate::galaxy::prefer_galaxy_save;

verus! {

/// A save's cloud-save settings, as far as the choice depends on them.
#[derive(Clone, Copy, Debug, PartialEq, Eq, Structural)]
pub struct CloudSettings {
    /// Whether automatic cloud saving is on.
    pub active: bool,
    /// Whether a cloud slot was picked for it.
    pub has_slot: bool,
}

/// What the choice needs to know of a saved game: when it was saved, in
/// seconds, and its cloud-save settings, if it has any.
#[derive(Clone, Copy, Debug, PartialEq, Eq, Structural)]
pub struct SaveMeta {
    pub real_time: i64,
    pub settings: Option<CloudSettings>,
}

/// Which saved game to resume.
#[derive(Clone, Copy, Debug, PartialEq, Eq, Structural)]
pub enum SaveSource {
    /// The save stored in the cloud.
    Cloud,
    /// The save stored in the browser, read again; there may be none.
    Local,
    /// None: a new game starts.
    Nothing,
}

/// What the running game's cloud-save settings become.
#[derive(Clone, Copy, Debug, PartialEq, Eq, Structural)]
pub enum SettingsChoice {
    /// They stay as they are.
    Unchanged,
    /// The cloud save's settings.
    FromCloud,
    /// The browser save's settings, or none when there is no browser save.
    FromLocal,
    /// Automatic cloud saving off, with no slot.
    Declined,
    /// Automatic cloud saving on, in the free slot that was found.
    NewSlot,
}

/// The decision: the save to resume, the settings to run with, and whether
/// the settings are written into the resumed browser save as well.
#[derive(Clone, Copy, Debug, PartialEq, Eq, Structural)]
pub struct ResumeChoice {
    pub source: SaveSource,
    pub settings: SettingsChoice,
    pub attach_to_local: bool,
}

/// The first step: a decision, or the question whether to save to the cloud.
#[derive(Clone, Copy, Debug, PartialEq, Eq, Structural)]
pub enum ResumeStep {
    Decided(ResumeChoice),
    AskAutosave,
}

/// A decision that resumes `source` with `settings`.
pub open spec fn decided(source: SaveSource, settings: SettingsChoice) -> ResumeStep {
    ResumeStep::Decided(ResumeChoice { source, settings, attach_to_local: false })
}

/// The first step when the game starts. `galaxy_save` says whether the game
/// runs at the cloud host with a player logged in; `cloud` is the cloud's
/// automatic save (read only then), `local` the browser's save.
/// - A cloud save with automatic saving on is resumed with its settings
///   when it is newer than the browser save (a missing one counting as
///   saved at time 0); otherwise the browser save is resumed with its own.
///   A cloud save with saving off leaves the settings alone; one without
///   settings switches saving off. The browser save is resumed in each case.
/// - At the host without a cloud save, a browser save with settings is
///   resumed with them; otherwise the player is asked.
/// - Away from the host, the browser save is resumed and nothing changes.
pub open spec fn spec_resume_step(galaxy_save: bool, cloud: Option<SaveMeta>, local: Option<SaveMeta>) -> ResumeStep {
    if galaxy_save && cloud is Some {
        let c = cloud.unwrap();
        match c.settings {
            Some(s) => if s.active && s.has_slot {
                let local_time = match local {
                    Some(l) => l.real_time as int,
                    None => 0,
                };
                if c.real_time > local_time {
                    decided(SaveSource::Cloud, SettingsChoice::FromCloud)
                } else {
                    decided(SaveSource::Local, SettingsChoice::FromLocal)
                }
            } else {
                decided(SaveSource::Local, SettingsChoice::Unchanged)
            },
            None => decided(SaveSource::Local, SettingsChoice::Declined),
        }
    } else if galaxy_save {
        match local {
            Some(l) => if l.settings is Some {
                decided(SaveSource::Local, SettingsChoice::FromLocal)
            } else {
                ResumeStep::AskAutosave
            },
            None => ResumeStep::AskAutosave,
        }
    } else {
        decided(SaveSource::Local, SettingsChoice::Unchanged)
    }
}

/// The first step when the game starts, as `spec_resume_step` says.
pub fn resume_step(galaxy_save: bool, cloud: Option<SaveMeta>, local: Option<SaveMeta>) -> (r: ResumeStep)
    ensures
        r == spec_resume_step(galaxy_save, cloud, local),
{
    let plain = |source: SaveSource, settings: SettingsChoice| -> (s: ResumeStep)
        ensures
            s == decided(source, settings),
        { ResumeStep::Decided(ResumeChoice { source, settings, attach_to_local: false }) };
    match cloud {
        Some(c) if galaxy_save => match c.settings {
            Some(s) => {
                if s.active && s.has_slot {
                    let local_time: Option<i64> = match local {
                        Some(l) => Some(l.real_time),
                        None => None,
                    };
                    if prefer_galaxy_save(c.real_time, local_time) {
                        plain(SaveSource::Cloud, SettingsChoice::FromCloud)
                    } else {
                        plain(SaveSource::Local, SettingsChoice::FromLocal)
                    }
                } else {
                    plain(SaveSource::Local, SettingsChoice::Unchanged)
                }
            },
            None => plain(SaveSource::Local, SettingsChoice::Declined),
        },
        _ => {
            if galaxy_save {
                match local {
                    Some(l) => match l.settings {
                        Some(_) => plain(SaveSource::Local, SettingsChoice::FromLocal),
                        None => ResumeStep::AskAutosave,
                    },
                    None => ResumeStep::AskAutosave,
                }
            } else {
                plain(SaveSource::Local, SettingsChoice::Unchanged)
            }
        },
    }
}

/// The decision after the player answered the question whether to save to
/// the cloud. On yes with a free slot, saving goes on in that slot: the
/// browser save (written with the new settings) is resumed when there is
/// one, else a new game starts. On yes without a free slot the player is
/// told so and the browser save is resumed unchanged. On no, saving is
/// switched off and the browser save is resumed.
pub open spec fn spec_autosave_answer(has_local: bool, accepted: bool, slot_found: bool) -> ResumeChoice {
    if accepted && slot_found {
        if has_local {
            ResumeChoice { source: SaveSource::Local, settings: SettingsChoice::NewSlot, attach_to_local: true }
        } else {
            ResumeChoice { source: SaveSource::Nothing, settings: SettingsChoice::NewSlot, attach_to_local: false }
        }
    } else if accepted {
        ResumeChoice { source: SaveSource::Local, settings: SettingsChoice::Unchanged, attach_to_local: false }
    } else {
        ResumeChoice { source: SaveSource::Local, settings: SettingsChoice::Declined, attach_to_local: false }
    }
}

/// The decision after the player's answer, as `spec_autosave_answer` says.
pub fn autosave_answer(has_local: bool, accepted: bool, slot_found: bool) -> (r: ResumeChoice)
    ensures
        r == spec_autosave_answer(has_local, accepted, slot_found),
{
    if !accepted {
        return ResumeChoice { source: SaveSource::Local, settings: SettingsChoice::Declined, attach_to_local: false };
    }
    if !slot_found {
        return ResumeChoice { source: SaveSource::Local, settings: SettingsChoice::Unchanged, attach_to_local: false };
    }
    let source = if has_local { SaveSource::Local } else { SaveSource::Nothing };
    ResumeChoice { source, settings: SettingsChoice::NewSlot, attach_to_local: has_local }
}

/// Law: away from the cloud host the browser save is resumed as it is, and
/// the player is never asked.
pub proof fn lemma_away_from_host_resumes_local(cloud: Option<SaveMeta>, local: Option<SaveMeta>)
    ensures
        spec_resume_step(false, cloud, local) == decided(SaveSource::Local, SettingsChoice::Unchanged),
{
}

/// Law: the cloud save is resumed only when it saves automatically and is
/// newer than the browser save, and then with its own settings.
pub proof fn lemma_cloud_resumed_only_when_newer(galaxy_save: bool, cloud: Option<SaveMeta>, local: Option<SaveMeta>)
    ensures
        ({
            let step = spec_resume_step(galaxy_save, cloud, local);
            step is Decided && step->0.source == SaveSource::Cloud ==> {
                &&& galaxy_save
                &&& cloud matches Some(cs) && cs.settings matches Some(s) && s.active && s.has_slot
                &&& cloud.unwrap().real_time > match local {
                    Some(l) => l.real_time as int,
                    None => 0,
                }
                &&& step->0.settings == SettingsChoice::FromCloud
            }
        }),
{
}

/// Law: the player is asked only at the cloud host, when no cloud save was
/// read and the browser save, if there is one, has no cloud-save settings;
/// whatever the answer, an existing browser save is resumed.
pub proof fn lemma_question_only_without_settings(
    galaxy_save: bool,
    cloud: Option<SaveMeta>,
    local: Option<SaveMeta>,
    accepted: bool,
    slot_found: bool,
)
    ensures
        spec_resume_step(galaxy_save, cloud, local) == ResumeStep::AskAutosave ==> {
            &&& galaxy_save
            &&& cloud is None
            &&& local matches Some(l) ==> l.settings is None
        },
        spec_autosave_answer(true, accepted, slot_found).source == SaveSource::Local,
        spec_autosave_answer(false, accepted, slot_found).source == SaveSource::Nothing ==> accepted
            && slot_found,
{
}

/// Law: the answer alone settles the settings: a refusal always switches
/// automatic cloud saving off (and is remembered), whether or not a slot was
/// found; a yes with a free slot always takes that slot; a yes without one
/// leaves the settings as they were and never starts a new game.
pub proof fn lemma_answer_settles_settings(has_local: bool, slot_found: bool)
    ensures
        spec_autosave_answer(has_local, false, slot_found).settings == SettingsChoice::Declined,
        spec_autosave_answer(has_local, false, slot_found).source == SaveSource::Local,
        !spec_autosave_answer(has_local, false, slot_found).attach_to_local,
        spec_autosave_answer(has_local, true, true).settings == SettingsChoice::NewSlot,
        spec_autosave_answer(has_local, true, true).attach_to_local == has_local,
        spec_autosave_answer(has_local, true, false).settings == SettingsChoice::Unchanged,
        spec_autosave_answer(has_local, true, false).source == SaveSource::Local,
{
}

/// Law: every outcome of the first step, by case. At the host with a cloud
/// save: automatic saving on with a slot resumes the cloud save with its
/// settings when it is strictly newer than the browser save (none counting
/// as time 0) and the browser save with its own otherwise; saving off or no
/// slot resumes the browser save leaving the settings alone; no settings
/// resumes it with saving switched off. At the host without one: a browser
/// save with settings is resumed with them, else the player is asked.
pub proof fn lemma_resume_step_cases(cloud: SaveMeta, local: Option<SaveMeta>, s: CloudSettings)
    ensures
        cloud.settings == Some(s) && s.active && s.has_slot ==> spec_resume_step(true, Some(cloud), local)
            == if cloud.real_time > (match local {
            Some(l) => l.real_time as int,
            None => 0,
        }) {
            ResumeStep::Decided(ResumeChoice { source: SaveSource::Cloud, settings: SettingsChoice::FromCloud, attach_to_local: false })
        } else {
            ResumeStep::Decided(ResumeChoice { source: SaveSource::Local, settings: SettingsChoice::FromLocal, attach_to_local: false })
        },
        cloud.settings == Some(s) && !(s.active && s.has_slot) ==> spec_resume_step(true, Some(cloud), local)
            == ResumeStep::Decided(ResumeChoice { source: SaveSource::Local, settings: SettingsChoice::Unchanged, attach_to_local: false }),
        cloud.settings is None ==> spec_resume_step(true, Some(cloud), local)
            == ResumeStep::Decided(ResumeChoice { source: SaveSource::Local, settings: SettingsChoice::Declined, attach_to_local: false }),
        local matches Some(l) && l.settings is Some ==> spec_resume_step(true, None, local)
            == ResumeStep::Decided(ResumeChoice { source: SaveSource::Local, settings: SettingsChoice::FromLocal, attach_to_local: false }),
        !(local matches Some(l) && l.settings is Some) ==> spec_resume_step(true, None, local) == ResumeStep::AskAutosave,
{
}

} // verus!
