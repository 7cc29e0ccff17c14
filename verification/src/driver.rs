use vstd::prelude::*;

verus! {

/// What the window reports.
#[derive(Clone, Copy, Debug, PartialEq, Eq, Structural)]
pub enum WindowEvent {
    Resized { width: u32, height: u32 },
    RedrawRequested,
    EscapePressed,
    CloseRequested,
    /// Anything else; it changes nothing.
    Other,
}

/// The drawables of a frame, in the order in which they are drawn.
#[derive(Clone, Copy, Debug, PartialEq, Eq, Structural)]
pub enum Drawable {
    Pentagon,
    Cube,
}

/// The render passes of a frame.
#[derive(Clone, Copy, Debug, PartialEq, Eq, Structural)]
pub enum Pass {
    /// Clears colour to white and depth to the far plane; the drawables
    /// go here.
    Scene,
    /// Keeps the colour that is there and has no depth; overlays go here.
    Overlay,
}

/// One thing for the host to do.
#[derive(Clone, Copy, Debug, PartialEq, Eq, Structural)]
pub enum FrameAction {
    ConfigureSurface { width: u32, height: u32 },
    CreateDepthTexture { width: u32, height: u32 },
    /// Give the camera the aspect ratio of a surface of this size.
    UpdateAspect { width: u32, height: u32 },
    RequestRedraw,
    /// Prepare a drawable and queue its writes, with the camera's matrix
    /// or without.
    Prepare { drawable: Drawable, with_camera: bool },
    AcquireFrame,
    BeginPass(Pass),
    /// Record a drawable's commands into the open pass.
    Render(Drawable),
    EndPass,
    Submit,
    Present,
    Exit,
}

/// What the host does before the first event: configure the surface and
/// its depth texture, then prepare every drawable without a camera.
pub open spec fn startup_actions(width: u32, height: u32) -> Seq<FrameAction> {
    seq![
        FrameAction::CreateDepthTexture { width, height },
        FrameAction::ConfigureSurface { width, height },
        FrameAction::Prepare { drawable: Drawable::Pentagon, with_camera: false },
        FrameAction::Prepare { drawable: Drawable::Cube, with_camera: false },
    ]
}

/// What a resize asks for.
pub open spec fn resize_actions(width: u32, height: u32) -> Seq<FrameAction> {
    seq![
        FrameAction::ConfigureSurface { width, height },
        FrameAction::CreateDepthTexture { width, height },
        FrameAction::UpdateAspect { width, height },
        FrameAction::RequestRedraw,
    ]
}

/// What one frame asks for: every drawable prepared with the camera, then
/// the frame acquired, the scene pass with every drawable in it, the
/// overlay pass, and the frame submitted and presented.
pub open spec fn redraw_actions() -> Seq<FrameAction> {
    seq![
        FrameAction::Prepare { drawable: Drawable::Pentagon, with_camera: true },
        FrameAction::Prepare { drawable: Drawable::Cube, with_camera: true },
        FrameAction::AcquireFrame,
        FrameAction::BeginPass(Pass::Scene),
        FrameAction::Render(Drawable::Pentagon),
        FrameAction::Render(Drawable::Cube),
        FrameAction::EndPass,
        FrameAction::BeginPass(Pass::Overlay),
        FrameAction::EndPass,
        FrameAction::Submit,
        FrameAction::Present,
    ]
}

/// What an event asks for.
pub open spec fn actions_for(event: WindowEvent) -> Seq<FrameAction> {
    match event {
        WindowEvent::Resized { width, height } => resize_actions(width, height),
        WindowEvent::RedrawRequested => redraw_actions(),
        WindowEvent::EscapePressed => seq![FrameAction::Exit],
        WindowEvent::CloseRequested => seq![FrameAction::Exit],
        WindowEvent::Other => Seq::empty(),
    }
}

/// The size of the surface as last configured.
#[derive(Clone, Copy, Debug, PartialEq, Eq, Structural)]
pub struct FrameDriver {
    pub width: u32,
    pub height: u32,
}

impl FrameDriver {
    /// The driver's state after `event`: a resize sets the size, nothing
    /// else changes anything.
    pub open spec fn after(self, event: WindowEvent) -> FrameDriver {
        match event {
            WindowEvent::Resized { width, height } => FrameDriver { width, height },
            _ => self,
        }
    }

    /// A driver for a surface of the given size.
    pub fn new(width: u32, height: u32) -> (driver: FrameDriver)
        ensures
            driver == (FrameDriver { width, height }),
    {
        FrameDriver { width, height }
    }

    /// What to do before the first event.
    pub fn startup(&self) -> (actions: Vec<FrameAction>)
        ensures
            actions@ == startup_actions(self.width, self.height),
    {
        let mut actions: Vec<FrameAction> = Vec::new();
        actions.push(FrameAction::CreateDepthTexture { width: self.width, height: self.height });
        actions.push(FrameAction::ConfigureSurface { width: self.width, height: self.height });
        actions.push(FrameAction::Prepare { drawable: Drawable::Pentagon, with_camera: false });
        actions.push(FrameAction::Prepare { drawable: Drawable::Cube, with_camera: false });
        assert(actions@ =~= startup_actions(self.width, self.height));
        actions
    }

    /// Takes in one event and returns what the host is to do, in order.
    pub fn handle(&mut self, event: WindowEvent) -> (actions: Vec<FrameAction>)
        ensures
            *final(self) == old(self).after(event),
            actions@ == actions_for(event),
    {
        let mut actions: Vec<FrameAction> = Vec::new();
        match event {
            WindowEvent::Resized { width, height } => {
                self.width = width;
                self.height = height;
                actions.push(FrameAction::ConfigureSurface { width, height });
                actions.push(FrameAction::CreateDepthTexture { width, height });
                actions.push(FrameAction::UpdateAspect { width, height });
                actions.push(FrameAction::RequestRedraw);
            },
            WindowEvent::RedrawRequested => {
                actions.push(
                    FrameAction::Prepare { drawable: Drawable::Pentagon, with_camera: true },
                );
                actions.push(FrameAction::Prepare { drawable: Drawable::Cube, with_camera: true });
                actions.push(FrameAction::AcquireFrame);
                actions.push(FrameAction::BeginPass(Pass::Scene));
                actions.push(FrameAction::Render(Drawable::Pentagon));
                actions.push(FrameAction::Render(Drawable::Cube));
                actions.push(FrameAction::EndPass);
                actions.push(FrameAction::BeginPass(Pass::Overlay));
                actions.push(FrameAction::EndPass);
                actions.push(FrameAction::Submit);
                actions.push(FrameAction::Present);
            },
            WindowEvent::EscapePressed => {
                actions.push(FrameAction::Exit);
            },
            WindowEvent::CloseRequested => {
                actions.push(FrameAction::Exit);
            },
            WindowEvent::Other => {},
        }
        assert(actions@ =~= actions_for(event));
        actions
    }
}

/// Number of passes open after the first `n` of `actions`.
pub open spec fn open_passes(actions: Seq<FrameAction>, n: int) -> int
    decreases n,
{
    if n <= 0 {
        0
    } else {
        open_passes(actions, n - 1) + match actions[n - 1] {
            FrameAction::BeginPass(_) => 1int,
            FrameAction::EndPass => -1int,
            _ => 0int,
        }
    }
}

/// In a frame no pass is open while a drawable is prepared, exactly one
/// is open while a drawable is rendered, at most one is ever open, and
/// none is left open when the frame is submitted.
pub proof fn lemma_frame_keeps_passes_in_order(i: int)
    requires
        0 <= i < redraw_actions().len(),
    ensures
        0 <= open_passes(redraw_actions(), i) <= 1,
        redraw_actions()[i] is Prepare ==> open_passes(redraw_actions(), i) == 0,
        redraw_actions()[i] is Render ==> open_passes(redraw_actions(), i) == 1,
        redraw_actions()[i] is BeginPass ==> open_passes(redraw_actions(), i) == 0,
        redraw_actions()[i] is EndPass ==> open_passes(redraw_actions(), i) == 1,
        redraw_actions()[i] is Submit ==> open_passes(redraw_actions(), i) == 0,
        redraw_actions()[i] is Present ==> open_passes(redraw_actions(), i) == 0,
{
    reveal_with_fuel(open_passes, 12);
}

} // verus!
