use shapes::driver::{Drawable, FrameAction, FrameDriver, Pass, WindowEvent};

#[test]
fn startup_configures_then_prepares_without_camera() {
    let driver = FrameDriver::new(800, 600);
    assert_eq!(
        driver.startup(),
        vec![
            FrameAction::CreateDepthTexture { width: 800, height: 600 },
            FrameAction::ConfigureSurface { width: 800, height: 600 },
            FrameAction::Prepare { drawable: Drawable::Pentagon, with_camera: false },
            FrameAction::Prepare { drawable: Drawable::Cube, with_camera: false },
        ]
    );
}

#[test]
fn resize_reconfigures_and_tells_the_camera() {
    let mut driver = FrameDriver::new(800, 600);
    let actions = driver.handle(WindowEvent::Resized { width: 1024, height: 768 });
    assert_eq!(
        actions,
        vec![
            FrameAction::ConfigureSurface { width: 1024, height: 768 },
            FrameAction::CreateDepthTexture { width: 1024, height: 768 },
            FrameAction::UpdateAspect { width: 1024, height: 768 },
            FrameAction::RequestRedraw,
        ]
    );
    assert_eq!(driver, FrameDriver { width: 1024, height: 768 });
}

#[test]
fn resize_to_nothing_is_passed_on() {
    let mut driver = FrameDriver::new(800, 600);
    let actions = driver.handle(WindowEvent::Resized { width: 0, height: 0 });
    assert_eq!(actions[2], FrameAction::UpdateAspect { width: 0, height: 0 });
    assert_eq!(driver, FrameDriver { width: 0, height: 0 });
}

#[test]
fn redraw_prepares_then_draws_then_presents() {
    let mut driver = FrameDriver::new(800, 600);
    let actions = driver.handle(WindowEvent::RedrawRequested);
    assert_eq!(
        actions,
        vec![
            FrameAction::Prepare { drawable: Drawable::Pentagon, with_camera: true },
            FrameAction::Prepare { drawable: Drawable::Cube, with_camera: true },
            FrameAction::AcquireFrame,
            FrameAction::BeginPass(Pass::Scene),
            FrameAction::Render(Drawable::Pentagon),
            FrameAction::Render(Drawable::Cube),
            FrameAction::EndPass,
            FrameAction::BeginPass(Pass::Overlay),
            FrameAction::EndPass,
            FrameAction::Submit,
            FrameAction::Present,
        ]
    );
    assert_eq!(driver, FrameDriver::new(800, 600));
}

#[test]
fn redraw_opens_exactly_two_passes_and_closes_both() {
    let mut driver = FrameDriver::new(1, 1);
    let actions = driver.handle(WindowEvent::RedrawRequested);
    let mut open = 0;
    let mut opened = 0;
    for action in &actions {
        match action {
            FrameAction::BeginPass(_) => {
                assert_eq!(open, 0);
                open += 1;
                opened += 1;
            }
            FrameAction::EndPass => {
                assert_eq!(open, 1);
                open -= 1;
            }
            FrameAction::Prepare { .. } | FrameAction::Submit | FrameAction::Present => {
                assert_eq!(open, 0)
            }
            FrameAction::Render(_) => assert_eq!(open, 1),
            _ => {}
        }
    }
    assert_eq!((open, opened), (0, 2));
}

#[test]
fn escape_and_close_exit() {
    let mut driver = FrameDriver::new(640, 480);
    assert_eq!(driver.handle(WindowEvent::EscapePressed), vec![FrameAction::Exit]);
    assert_eq!(driver.handle(WindowEvent::CloseRequested), vec![FrameAction::Exit]);
    assert_eq!(driver, FrameDriver::new(640, 480));
}

#[test]
fn other_events_ask_for_nothing() {
    let mut driver = FrameDriver::new(640, 480);
    assert!(driver.handle(WindowEvent::Other).is_empty());
    assert_eq!(driver, FrameDriver::new(640, 480));
}
