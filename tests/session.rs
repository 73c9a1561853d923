use sysview::frame::{draw_calls, DrawCall};
use sysview::session::{Action, Session, TickOutcome};
use sysview::startup::{check_platform, platform_notice, UnsupportedPlatform};
use sysview::ui::{dispatch, KeyCode, KeyEvent, KeyKind, Transition, UiState};

fn polled(c: char) -> TickOutcome {
    TickOutcome::Polled(Some(KeyEvent::press(c)))
}

#[test]
fn modal_starts_closed_and_opens_on_question_mark() {
    let mut ui = UiState::new();
    assert!(!ui.is_modal_open());
    assert_eq!(dispatch(&mut ui, Some(KeyEvent::press('?'))), Transition::OpenModal);
    assert!(ui.is_modal_open());
    assert_eq!(dispatch(&mut ui, Some(KeyEvent::press('?'))), Transition::OpenModal);
    assert!(ui.is_modal_open());
}

#[test]
fn quit_regardless_of_modal() {
    let mut closed = UiState::new();
    assert_eq!(dispatch(&mut closed, Some(KeyEvent::press('q'))), Transition::Quit);
    assert!(!closed.is_modal_open());
    let mut open = UiState::new();
    open.open_modal();
    assert_eq!(dispatch(&mut open, Some(KeyEvent::press('q'))), Transition::Quit);
    assert!(open.is_modal_open());
}

#[test]
fn other_keys_are_ignored() {
    for ui in [UiState { modal_open: false }, UiState { modal_open: true }] {
        let mut s = ui;
        assert_eq!(dispatch(&mut s, Some(KeyEvent::press('x'))), Transition::Ignore);
        assert_eq!(s, ui);
        assert_eq!(dispatch(&mut s, Some(KeyEvent::press('Q'))), Transition::Ignore);
        let other = KeyEvent { code: KeyCode::Other, kind: KeyKind::Press };
        assert_eq!(dispatch(&mut s, Some(other)), Transition::Ignore);
        let release = KeyEvent { code: KeyCode::Char('q'), kind: KeyKind::Release };
        assert_eq!(dispatch(&mut s, Some(release)), Transition::Ignore);
        let repeat = KeyEvent { code: KeyCode::Char('?'), kind: KeyKind::Repeat };
        assert_eq!(dispatch(&mut s, Some(repeat)), Transition::Ignore);
        assert_eq!(dispatch(&mut s, None), Transition::Ignore);
        assert_eq!(s, ui);
    }
}

#[test]
fn question_x_q_sequence() {
    let mut s = Session::start();
    assert_eq!(s.step(polled('?')), Action::Continue { log_modal: true });
    assert!(s.running && s.ui.modal_open);
    assert_eq!(s.step(polled('x')), Action::Continue { log_modal: false });
    assert!(s.running && s.ui.modal_open);
    assert_eq!(s.step(polled('q')), Action::Exit { restore: true, fatal: false });
    assert!(!s.running);
}

fn restorations(outcomes: &[TickOutcome]) -> usize {
    let mut s = Session::start();
    let mut count = 0;
    for o in outcomes {
        if let Action::Exit { restore: true, .. } = s.step(*o) {
            count += 1;
        }
    }
    count
}

#[test]
fn restoration_once_on_quit_and_on_failure() {
    assert_eq!(restorations(&[polled('x'), polled('q')]), 1);
    assert_eq!(restorations(&[polled('?'), TickOutcome::Failed]), 1);
    assert_eq!(restorations(&[polled('q'), polled('q'), TickOutcome::Failed]), 1);
    assert_eq!(restorations(&[TickOutcome::Failed, polled('q'), TickOutcome::Failed]), 1);
    assert_eq!(restorations(&[polled('x'), TickOutcome::Polled(None)]), 0);
}

#[test]
fn draw_failure_exits_with_error() {
    let mut s = Session::start();
    assert_eq!(s.step(TickOutcome::Failed), Action::Exit { restore: true, fatal: true });
    assert_eq!(s.step(polled('q')), Action::Exit { restore: false, fatal: false });
    assert!(!s.running && s.restored);
}

#[test]
fn one_draw_call_with_modal_closed() {
    let lines = vec!["a".to_string(), "b".to_string()];
    let calls = draw_calls(&UiState::new(), lines.clone());
    assert_eq!(calls.len(), 1);
    match &calls[0] {
        DrawCall::MetricsList { title, lines: l } => {
            assert_eq!(title, "Block Title");
            assert_eq!(l, &lines);
        }
        _ => panic!("expected the metrics list"),
    }
}

#[test]
fn two_draw_calls_with_modal_open() {
    let calls = draw_calls(&UiState { modal_open: true }, vec![]);
    assert_eq!(calls.len(), 2);
    assert!(matches!(&calls[0], DrawCall::MetricsList { title, lines } if title == "Block Title" && lines.is_empty()));
    match &calls[1] {
        DrawCall::Overlay { text } => assert_eq!(text, "modal open"),
        _ => panic!("expected the overlay"),
    }
}

#[test]
fn unsupported_platform_is_refused() {
    assert_eq!(check_platform(false), Err(UnsupportedPlatform));
    assert_eq!(platform_notice(false), "Not supported os");
    assert_eq!(UnsupportedPlatform.describe(), "Custom error occurred");
}

#[test]
fn supported_platform_goes_on() {
    assert_eq!(check_platform(true), Ok(()));
    assert_eq!(platform_notice(true), "supported system");
}
