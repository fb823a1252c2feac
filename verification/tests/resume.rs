use hash_quest::resume::{
    autosave_answer, resume_step, CloudSettings, ResumeChoice, ResumeStep, SaveMeta, SaveSource,
    SettingsChoice,
};

fn save(real_time: i64, settings: Option<(bool, bool)>) -> Option<SaveMeta> {
    Some(SaveMeta {
        real_time,
        settings: settings.map(|(active, has_slot)| CloudSettings { active, has_slot }),
    })
}

fn decided(source: SaveSource, settings: SettingsChoice) -> ResumeStep {
    ResumeStep::Decided(ResumeChoice { source, settings, attach_to_local: false })
}

#[test]
fn away_from_host_resumes_browser_save() {
    assert_eq!(
        resume_step(false, save(10, Some((true, true))), save(5, None)),
        decided(SaveSource::Local, SettingsChoice::Unchanged)
    );
    assert_eq!(resume_step(false, None, None), decided(SaveSource::Local, SettingsChoice::Unchanged));
}

#[test]
fn newer_cloud_save_wins() {
    assert_eq!(
        resume_step(true, save(100, Some((true, true))), save(50, Some((true, true)))),
        decided(SaveSource::Cloud, SettingsChoice::FromCloud)
    );
    assert_eq!(
        resume_step(true, save(100, Some((true, true))), None),
        decided(SaveSource::Cloud, SettingsChoice::FromCloud)
    );
    assert_eq!(
        resume_step(true, save(50, Some((true, true))), save(50, None)),
        decided(SaveSource::Local, SettingsChoice::FromLocal)
    );
    assert_eq!(
        resume_step(true, save(0, Some((true, true))), None),
        decided(SaveSource::Local, SettingsChoice::FromLocal)
    );
}

#[test]
fn cloud_save_without_autosave() {
    assert_eq!(
        resume_step(true, save(100, Some((false, true))), save(5, None)),
        decided(SaveSource::Local, SettingsChoice::Unchanged)
    );
    assert_eq!(
        resume_step(true, save(100, Some((true, false))), save(5, None)),
        decided(SaveSource::Local, SettingsChoice::Unchanged)
    );
    assert_eq!(
        resume_step(true, save(100, None), save(5, None)),
        decided(SaveSource::Local, SettingsChoice::Declined)
    );
}

#[test]
fn player_asked_only_without_settings() {
    assert_eq!(resume_step(true, None, save(5, None)), ResumeStep::AskAutosave);
    assert_eq!(resume_step(true, None, None), ResumeStep::AskAutosave);
    assert_eq!(
        resume_step(true, None, save(5, Some((false, false)))),
        decided(SaveSource::Local, SettingsChoice::FromLocal)
    );
}

#[test]
fn answers_to_the_question() {
    assert_eq!(
        autosave_answer(true, true, true),
        ResumeChoice { source: SaveSource::Local, settings: SettingsChoice::NewSlot, attach_to_local: true }
    );
    assert_eq!(
        autosave_answer(false, true, true),
        ResumeChoice { source: SaveSource::Nothing, settings: SettingsChoice::NewSlot, attach_to_local: false }
    );
    assert_eq!(
        autosave_answer(true, true, false),
        ResumeChoice { source: SaveSource::Local, settings: SettingsChoice::Unchanged, attach_to_local: false }
    );
    assert_eq!(
        autosave_answer(false, false, true),
        ResumeChoice { source: SaveSource::Local, settings: SettingsChoice::Declined, attach_to_local: false }
    );
}
