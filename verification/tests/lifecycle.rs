use motion_sketch::config::choose_format;
use motion_sketch::config::FormatOption;
use motion_sketch::config::SurfaceConfig;
use motion_sketch::config::MAX_FRAME_LATENCY;
use motion_sketch::driver::Directive;
use motion_sketch::driver::Driver;
use motion_sketch::driver::Event;
use motion_sketch::driver::Key;
use motion_sketch::driver::EXIT_FATAL;
use motion_sketch::driver::EXIT_OK;
use motion_sketch::presenter::clear_color;
use motion_sketch::presenter::decide_present_outcome;
use motion_sketch::presenter::FrameSpec;
use motion_sketch::presenter::PresentDecision;
use motion_sketch::presenter::PresentOutcome;
use motion_sketch::presenter::Presenter;
use motion_sketch::presenter::Rgba;

fn fmt(code: u32, srgb: bool) -> FormatOption {
    FormatOption { code, srgb }
}

fn presenter_1280x720() -> Presenter {
    Presenter::new(1280, 720, fmt(7, true), 3, 4)
}

#[test]
fn format_picks_first_srgb() {
    let formats = vec![fmt(1, false), fmt(2, true), fmt(3, true)];
    assert_eq!(choose_format(&formats), Some(fmt(2, true)));
}

#[test]
fn format_falls_back_to_first() {
    let formats = vec![fmt(9, false), fmt(8, false)];
    assert_eq!(choose_format(&formats), Some(fmt(9, false)));
}

#[test]
fn format_none_when_none_offered() {
    let formats: Vec<FormatOption> = Vec::new();
    assert_eq!(choose_format(&formats), None);
}

#[test]
fn config_carries_fixed_frame_latency() {
    let c = SurfaceConfig::new(1280, 720, fmt(7, true), 3, 4);
    assert_eq!(c.width, 1280);
    assert_eq!(c.height, 720);
    assert_eq!(c.format, fmt(7, true));
    assert_eq!(c.present_mode, 3);
    assert_eq!(c.alpha_mode, 4);
    assert_eq!(c.max_frame_latency, 2);
    assert_eq!(MAX_FRAME_LATENCY, 2);
}

#[test]
fn clear_color_is_the_fixed_constant() {
    assert_eq!(clear_color(), Rgba { r: 1000, g: 200, b: 300, a: 1000 });
}

#[test]
fn reconfigure_applies_valid_size() {
    let mut p = presenter_1280x720();
    let changed = p.reconfigure(800, 600);
    assert!(changed);
    assert_eq!(p.config.width, 800);
    assert_eq!(p.config.height, 600);
    assert_eq!(p.config.format, fmt(7, true));
}

#[test]
fn reconfigure_ignores_zero_width() {
    let mut p = presenter_1280x720();
    let changed = p.reconfigure(0, 600);
    assert!(!changed);
    assert_eq!(p.config.width, 1280);
    assert_eq!(p.config.height, 720);
}

#[test]
fn reconfigure_ignores_zero_height() {
    let mut p = presenter_1280x720();
    let changed = p.reconfigure(800, 0);
    assert!(!changed);
    assert_eq!(p.config.width, 1280);
    assert_eq!(p.config.height, 720);
}

#[test]
fn frame_matches_configuration() {
    let mut p = presenter_1280x720();
    p.reconfigure(800, 600);
    let f = p.begin_frame();
    assert_eq!(f, FrameSpec { width: 800, height: 600, clear: clear_color() });
}

#[test]
fn outcome_decisions() {
    assert_eq!(decide_present_outcome(PresentOutcome::Success), PresentDecision::Proceed);
    assert_eq!(decide_present_outcome(PresentOutcome::Timeout), PresentDecision::Proceed);
    assert_eq!(decide_present_outcome(PresentOutcome::Lost), PresentDecision::Reconfigure);
    assert_eq!(decide_present_outcome(PresentOutcome::Outdated), PresentDecision::Reconfigure);
    assert_eq!(decide_present_outcome(PresentOutcome::OutOfMemory), PresentDecision::Fatal);
}

/// Start at 1280x720, render three frames with no intervening events: three
/// identical render directives, the same clear color on each, and no
/// reconfiguration ordered.
#[test]
fn three_frames_no_events() {
    let mut d = Driver::new(presenter_1280x720());
    let expected = Directive::RenderFrame(FrameSpec {
        width: 1280,
        height: 720,
        clear: clear_color(),
    });
    for _ in 0..3 {
        let dir = d.handle_event(Event::RedrawRequested);
        assert_eq!(dir, expected);
        let after = d.handle_present_outcome(PresentOutcome::Success);
        assert_eq!(after, Directive::Idle);
    }
    assert!(!d.exited);
    assert_eq!(d.presenter.config.width, 1280);
    assert_eq!(d.presenter.config.height, 720);
}

/// A resize to (0, 720) leaves the configuration at its prior valid value; a
/// following resize to (800, 600) changes it exactly once.
#[test]
fn zero_resize_then_valid_resize() {
    let mut d = Driver::new(presenter_1280x720());
    let dir = d.handle_event(Event::Resized(0, 720));
    assert_eq!(dir, Directive::Idle);
    assert_eq!(d.presenter.config.width, 1280);
    assert_eq!(d.presenter.config.height, 720);

    let dir = d.handle_event(Event::Resized(800, 600));
    match dir {
        Directive::Configure(c) => {
            assert_eq!(c.width, 800);
            assert_eq!(c.height, 600);
            assert_eq!(c.format, fmt(7, true));
            assert_eq!(c.max_frame_latency, 2);
        },
        other => panic!("expected a configure directive, got {:?}", other),
    }
    assert_eq!(d.presenter.config.width, 800);
    assert_eq!(d.presenter.config.height, 600);
}

/// A render directive drawn right after a valid resize carries exactly the
/// new dimensions.
#[test]
fn render_after_resize_uses_new_size() {
    let mut d = Driver::new(presenter_1280x720());
    d.handle_event(Event::Resized(640, 480));
    let dir = d.handle_event(Event::RedrawRequested);
    assert_eq!(
        dir,
        Directive::RenderFrame(FrameSpec { width: 640, height: 480, clear: clear_color() })
    );
}

/// A close request exits with code 0 and no further frame is rendered.
#[test]
fn close_request_exits_cleanly() {
    let mut d = Driver::new(presenter_1280x720());
    let dir = d.handle_event(Event::CloseRequested);
    assert_eq!(dir, Directive::Exit(EXIT_OK));
    assert!(d.exited);
    assert_eq!(d.exit_code, 0);
    let after = d.handle_event(Event::RedrawRequested);
    assert_eq!(after, Directive::Idle);
}

#[test]
fn escape_key_exits_cleanly() {
    let mut d = Driver::new(presenter_1280x720());
    let dir = d.handle_event(Event::KeyPressed(Key::Escape));
    assert_eq!(dir, Directive::Exit(EXIT_OK));
    assert!(d.exited);
    assert_eq!(d.exit_code, 0);
}

#[test]
fn other_key_is_ignored() {
    let mut d = Driver::new(presenter_1280x720());
    let dir = d.handle_event(Event::KeyPressed(Key::Other));
    assert_eq!(dir, Directive::Idle);
    assert!(!d.exited);
}

/// A lost surface is answered by a reconfiguration with the last known size
/// before any further present attempt.
#[test]
fn lost_surface_reconfigures_with_last_size() {
    let mut d = Driver::new(presenter_1280x720());
    d.handle_event(Event::Resized(800, 600));
    let dir = d.handle_present_outcome(PresentOutcome::Lost);
    match dir {
        Directive::Configure(c) => {
            assert_eq!(c.width, 800);
            assert_eq!(c.height, 600);
        },
        other => panic!("expected a configure directive, got {:?}", other),
    }
    assert!(!d.exited);
}

#[test]
fn outdated_surface_reconfigures_with_last_size() {
    let mut d = Driver::new(presenter_1280x720());
    let dir = d.handle_present_outcome(PresentOutcome::Outdated);
    match dir {
        Directive::Configure(c) => {
            assert_eq!(c.width, 1280);
            assert_eq!(c.height, 720);
        },
        other => panic!("expected a configure directive, got {:?}", other),
    }
    assert!(!d.exited);
}

/// A timeout skips the frame and carries on: nothing reconfigured, nothing
/// exited.
#[test]
fn timeout_skips_frame() {
    let mut d = Driver::new(presenter_1280x720());
    let dir = d.handle_present_outcome(PresentOutcome::Timeout);
    assert_eq!(dir, Directive::Idle);
    assert!(!d.exited);
}

/// An out-of-memory outcome terminates the loop with a non-zero code and no
/// subsequent render directive is ever drawn.
#[test]
fn out_of_memory_terminates_loop() {
    let mut d = Driver::new(presenter_1280x720());
    let dir = d.handle_present_outcome(PresentOutcome::OutOfMemory);
    assert_eq!(dir, Directive::Exit(EXIT_FATAL));
    assert!(d.exited);
    assert_ne!(d.exit_code, 0);
    let after = d.handle_event(Event::RedrawRequested);
    assert_eq!(after, Directive::Idle);
    let after = d.handle_present_outcome(PresentOutcome::Success);
    assert_eq!(after, Directive::Idle);
}

/// Over a mixed resize sequence the configuration tracks the most recent
/// valid size.
#[test]
fn config_tracks_last_valid_size() {
    let mut d = Driver::new(presenter_1280x720());
    let sizes = [(300u32, 200u32), (0, 0), (1024, 768), (0, 5), (5, 0), (640, 480), (0, 999)];
    for (w, h) in sizes {
        d.handle_event(Event::Resized(w, h));
    }
    assert_eq!(d.presenter.config.width, 640);
    assert_eq!(d.presenter.config.height, 480);
}
