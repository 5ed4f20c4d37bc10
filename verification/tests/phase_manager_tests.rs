use tcg_rules::phase_manager::{Phase, PhaseManager, SubPhase};

#[test]
fn test_initial_phase() {
    let manager = PhaseManager::new();
    assert_eq!(manager.get_phase(), (Phase::Untap, SubPhase::Beginning));
}

#[test]
fn test_next_phase() {
    let mut manager = PhaseManager::new();

    manager.next();
    assert_eq!(manager.get_phase(), (Phase::Untap, SubPhase::End));

    manager.next();
    assert_eq!(manager.get_phase(), (Phase::Upkeep, SubPhase::Beginning));
}

#[test]
fn test_full_phase_cycle() {
    let mut manager = PhaseManager::new();
    let expected_sequence = vec![
        (Phase::Untap, SubPhase::Beginning),
        (Phase::Untap, SubPhase::End),
        (Phase::Upkeep, SubPhase::Beginning),
        (Phase::Upkeep, SubPhase::End),
        (Phase::Draw, SubPhase::Beginning),
        (Phase::Draw, SubPhase::End),
        (Phase::PreCombatMain, SubPhase::Beginning),
        (Phase::PreCombatMain, SubPhase::End),
        (Phase::Combat, SubPhase::Beginning),
        (Phase::Combat, SubPhase::End),
        (Phase::PostCombatMain, SubPhase::Beginning),
        (Phase::PostCombatMain, SubPhase::End),
        (Phase::End, SubPhase::Beginning),
        (Phase::End, SubPhase::End),
        (Phase::Cleanup, SubPhase::Beginning),
        (Phase::Cleanup, SubPhase::End),
        (Phase::Untap, SubPhase::Beginning), // Back to start
    ];

    for expected in expected_sequence {
        assert_eq!(manager.get_phase(), expected);
        manager.next();
    }
}

#[test]
fn test_process_phase_should_advance_subphase_then_phase() {
    let mut manager = PhaseManager::new();

    manager.process_phase();
    assert_eq!(manager.get_phase(), (Phase::Untap, SubPhase::End));

    manager.process_phase();
    assert_eq!(manager.get_phase(), (Phase::Upkeep, SubPhase::Beginning));
}

#[test]
fn test_is_phase() {
    let manager = PhaseManager::new();
    assert!(manager.is_phase(Phase::Untap, SubPhase::Beginning));
    assert!(!manager.is_phase(Phase::Upkeep, SubPhase::Beginning));
}

#[test]
fn sixteen_steps_visit_every_step_once() {
    let mut manager = PhaseManager::new();
    let mut seen = Vec::new();
    for _ in 0..16 {
        let at = manager.get_phase();
        assert!(!seen.contains(&at));
        seen.push(at);
        manager.next();
    }
    assert_eq!(seen.len(), 16);
    assert_eq!(manager.get_phase(), (Phase::Untap, SubPhase::Beginning));
    manager.next();
    assert_eq!(manager.get_phase(), seen[1]);
}

#[test]
fn the_cycle_goes_on_turn_after_turn() {
    let mut manager = PhaseManager::new();
    for _ in 0..(16 * 5 + 9) {
        manager.next();
    }
    assert_eq!(manager.get_phase(), (Phase::Combat, SubPhase::End));
    assert!(manager.is_phase(Phase::Combat, SubPhase::End));
    assert!(!manager.is_phase(Phase::Combat, SubPhase::Beginning));
    assert!(!manager.is_phase(Phase::End, SubPhase::End));
}

#[test]
fn cleanup_wraps_around_to_untap() {
    let mut manager = PhaseManager::new();
    for _ in 0..14 {
        manager.next();
    }
    assert_eq!(manager.get_phase(), (Phase::Cleanup, SubPhase::Beginning));
    manager.next();
    assert_eq!(manager.get_phase(), (Phase::Cleanup, SubPhase::End));
    manager.next();
    assert_eq!(manager.get_phase(), (Phase::Untap, SubPhase::Beginning));
}

#[test]
fn the_pass_sees_the_step_before_the_turn_moves_on() {
    let mut manager = PhaseManager::new();
    let mut seen = Vec::new();
    for _ in 0..18 {
        let before = manager.get_phase();
        let outcome: Result<(), String> = manager.process_phase_with(|phase, subphase| {
            seen.push((phase, subphase));
            Ok(())
        });
        assert_eq!(outcome, Ok(()));
        assert_eq!(seen.last(), Some(&before));
        assert_ne!(manager.get_phase(), before);
    }
    assert_eq!(seen.len(), 18);
    assert_eq!(seen[0], (Phase::Untap, SubPhase::Beginning));
    assert_eq!(seen[1], (Phase::Untap, SubPhase::End));
    assert_eq!(seen[16], (Phase::Untap, SubPhase::Beginning));
    assert_eq!(manager.get_phase(), (Phase::Upkeep, SubPhase::Beginning));
}

#[test]
fn a_failed_pass_is_handed_back_and_the_turn_stays() {
    let mut manager = PhaseManager::new();
    manager.next();
    let mut calls = 0;
    let outcome = manager.process_phase_with(|phase, subphase| {
        calls += 1;
        Err(format!("{:?} {:?}", phase, subphase))
    });
    assert_eq!(outcome, Err("Untap End".to_string()));
    assert_eq!(calls, 1);
    assert_eq!(manager.get_phase(), (Phase::Untap, SubPhase::End));

    let outcome: Result<(), String> = manager.process_phase_with(|_, _| Ok(()));
    assert_eq!(outcome, Ok(()));
    assert_eq!(manager.get_phase(), (Phase::Upkeep, SubPhase::Beginning));
}

#[test]
fn the_empty_pass_changes_nothing() {
    let mut manager = PhaseManager::new();
    manager.next();
    manager.resolve_phase_triggers(&Phase::Combat, &SubPhase::End);
    assert_eq!(manager.get_phase(), (Phase::Untap, SubPhase::End));
}
