use apple_music_tui::backend::BackendCommand;
use apple_music_tui::scheduler::CommandScheduler;

#[test]
fn ordered_interactive_commands_stay_ordered_and_background_work_runs() {
    let mut scheduler = CommandScheduler::default();
    scheduler.enqueue(BackendCommand::RefreshLibrary);
    scheduler.enqueue(BackendCommand::Next);
    scheduler.enqueue(BackendCommand::Previous);

    assert!(matches!(scheduler.pop_next().map(|queued| queued.command), Some(BackendCommand::Next)));
    assert!(matches!(scheduler.pop_next().map(|queued| queued.command), Some(BackendCommand::Previous)));
    assert!(matches!(
        scheduler.pop_next().map(|queued| queued.command),
        Some(BackendCommand::RefreshLibrary)
    ));
}

#[test]
fn low_priority_work_is_fair_after_eight_foreground_commands() {
    let mut scheduler = CommandScheduler::default();
    scheduler.enqueue(BackendCommand::RefreshLibrary);
    for _ in 0..9 {
        scheduler.enqueue(BackendCommand::PlayPause);
    }

    for _ in 0..8 {
        assert!(matches!(scheduler.pop_next().map(|queued| queued.command), Some(BackendCommand::PlayPause)));
    }
    assert!(matches!(
        scheduler.pop_next().map(|queued| queued.command),
        Some(BackendCommand::RefreshLibrary)
    ));
}

#[test]
fn empty_scheduler_pops_nothing() {
    let mut scheduler = CommandScheduler::new();
    assert!(scheduler.pop_next().is_none());
}
