use wio_exercise::flash_check::{FlashAction, FlashCommand, FlashEvent, Notice, ReportKind, Stage};

/// Runs the self-test against a simulated chip: `quad` is the value of
/// status register 2, `reads` the successive four-byte reads.
fn run(quad: u8, reads: &[[u8; 4]]) -> (Vec<FlashAction>, Stage) {
    let mut stage = Stage::start();
    let mut actions = Vec::new();
    let mut next_read = 0;
    for _ in 0..100 {
        let action = stage.action();
        actions.push(action);
        let event = match action {
            FlashAction::ReadStatus2 => FlashEvent::Status(quad),
            FlashAction::ReadMemory { .. } | FlashAction::ReadXip { .. } => {
                next_read += 1;
                FlashEvent::Data(reads[next_read - 1])
            }
            FlashAction::Blink | FlashAction::Finish => return (actions, stage),
            _ => FlashEvent::Done,
        };
        stage = stage.advance(event);
    }
    (actions, stage)
}

const ERASED: [u8; 4] = [0xff, 0xff, 0xff, 0xff];
const START: [u8; 4] = [0x00, 0xff, 0xaa, 0x11];
const XIP: [u8; 4] = [0x01, 0xaa, 0xce, 0x04];

#[test]
fn a_healthy_chip_passes() {
    let (actions, end) = run(0x02, &[ERASED, START, XIP, XIP]);
    assert_eq!(end, Stage::Passed);
    assert_eq!(actions.last(), Some(&FlashAction::Finish));
    assert_eq!(actions[0], FlashAction::Pause { ms: 15 });
    assert_eq!(actions[2], FlashAction::Run { command: FlashCommand::EnableReset });
    assert_eq!(actions[3], FlashAction::Run { command: FlashCommand::Reset });
    assert_eq!(actions[5], FlashAction::SetClockDivider { divider: 3 });
    // quad mode already on: no status write
    assert!(!actions.iter().any(|a| matches!(a, FlashAction::WriteStatus { .. })));
    assert!(actions.contains(&FlashAction::Report { kind: ReportKind::PostErase, data: ERASED }));
    assert!(actions.contains(&FlashAction::WriteMemory { address: 0, data: START }));
    assert!(actions.contains(&FlashAction::WriteMemory { address: 0x800, data: XIP }));
    assert!(actions.contains(&FlashAction::ReadXip { offset: 0x800 }));
    assert!(actions.contains(&FlashAction::Notify { notice: Notice::Erasing }));
}

#[test]
fn quad_mode_is_switched_on_when_off() {
    let (actions, end) = run(0x00, &[ERASED, START, XIP, XIP]);
    assert_eq!(end, Stage::Passed);
    let at = actions.iter().position(|a| matches!(a, FlashAction::WriteStatus { .. })).unwrap();
    assert_eq!(actions[at], FlashAction::WriteStatus { value: [0x00, 0x02] });
    assert_eq!(actions[at - 1], FlashAction::Run { command: FlashCommand::WriteEnable });
    assert_eq!(actions[at - 2], FlashAction::AwaitReady);
}

#[test]
fn every_write_follows_a_write_enable() {
    let (actions, _) = run(0x00, &[ERASED, START, XIP, XIP]);
    for (i, a) in actions.iter().enumerate() {
        if matches!(a, FlashAction::WriteStatus { .. } | FlashAction::EraseChip | FlashAction::WriteMemory { .. }) {
            let before = actions[..i]
                .iter()
                .rev()
                .find(|b| !matches!(b, FlashAction::Notify { .. } | FlashAction::Report { .. } | FlashAction::Pause { .. }))
                .unwrap();
            assert_eq!(*before, FlashAction::Run { command: FlashCommand::WriteEnable });
        }
    }
}

#[test]
fn a_bad_read_back_fails_the_test() {
    let (actions, end) = run(0x02, &[ERASED, [0x00, 0xff, 0xab, 0x11]]);
    assert_eq!(end, Stage::Failed);
    assert_eq!(actions.last(), Some(&FlashAction::Blink));
    assert!(!actions.iter().any(|a| matches!(a, FlashAction::EnterXip)));
}

#[test]
fn a_bad_xip_read_fails_the_test() {
    let (_, end) = run(0x02, &[ERASED, START, [0, 0, 0, 0]]);
    assert_eq!(end, Stage::Failed);
    let (_, end) = run(0x02, &[ERASED, START, XIP, [0x01, 0xaa, 0xce, 0x05]]);
    assert_eq!(end, Stage::Failed);
}

#[test]
fn a_reading_stage_waits_for_its_reading() {
    assert_eq!(Stage::CheckQuad.advance(FlashEvent::Done), Stage::CheckQuad);
    assert_eq!(Stage::ReadBack.advance(FlashEvent::Status(0)), Stage::ReadBack);
    assert_eq!(Stage::Failed.advance(FlashEvent::Done), Stage::Failed);
    assert_eq!(Stage::Passed.advance(FlashEvent::Done), Stage::Passed);
}
