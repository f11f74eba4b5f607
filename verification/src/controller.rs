use vstd::prelude::*;
use vstd::pervasive::unreached;
use crate::geometry::{loword, hiword, spec_loword, spec_hiword, ClientRect};
use crate::pixels::PixelFormat;
use crate::surface::{SurfaceCaps, SurfaceConfig, SurfaceState};
use crate::surface::RenderPlan;

verus! {

/// The platform's paint-request message number.
pub const WM_PAINT: u32 = 0x000f;

/// The platform's size-changed message number; the new client-area size
/// rides in the message's packed parameter word.
pub const WM_SIZE: u32 = 0x0005;

/// The platform's destroy notification message number.
pub const WM_DESTROY: u32 = 0x0002;

/// Status carried by a failed native call (an HRESULT-style code). The
/// machine treats every failure uniformly, so the code is informational.
#[derive(Clone, Copy, PartialEq, Eq, Structural, Debug)]
pub struct NativeError {
    pub code: i32,
}

/// Handles produced by a successful device-stack creation: the 3D device,
/// the 2D interop device derived from it, and the desktop-composition
/// device derived from that.
#[derive(Clone, Copy, PartialEq, Eq, Structural, Debug)]
pub struct DeviceStackIds {
    pub device3d: u64,
    pub device2d: u64,
    pub desktop: u64,
}

/// What building the visual tree reports back: the root visual attached to
/// the target, the content visual added under it, and the window's current
/// client area.
#[derive(Clone, Copy, PartialEq, Eq, Structural, Debug)]
pub struct VisualTreeReport {
    pub root_visual: u64,
    pub content_visual: u64,
    pub client_rect: ClientRect,
}

/// What creating the GPU side reports back: the presentable surface bound
/// to the content visual, the adapter selected as compatible with it, the
/// logical device and queue, and the surface's capabilities for that
/// adapter.
#[derive(Debug)]
pub struct GpuSurfaceReport {
    pub surface: u64,
    pub adapter: u64,
    pub device: u64,
    pub queue: u64,
    pub caps: SurfaceCaps,
}

/// Where the controller stands inside a paint: either no paint is in
/// flight, or it waits for the outcome of the one native step it has asked
/// the host to perform. Rebuild steps carry the handles the later steps
/// will need.
#[derive(Clone, Copy, PartialEq, Eq, Structural, Debug)]
pub enum Phase {
    Idle,
    AwaitLiveness,
    AwaitDeviceStack,
    AwaitRelease { desktop: u64 },
    AwaitTarget { desktop: u64 },
    AwaitVisualTree { desktop: u64 },
    AwaitGpuSurface { desktop: u64, width: u32, height: u32 },
    AwaitConfigure { desktop: u64 },
    AwaitCommit { desktop: u64 },
    AwaitRender,
}

/// The outcome of the native step the controller last asked for.
#[derive(Debug)]
pub enum Event {
    LivenessChecked(Result<(), NativeError>),
    DeviceStackCreated(Result<DeviceStackIds, NativeError>),
    TargetReleased,
    TargetCreated(Result<u64, NativeError>),
    VisualTreeBuilt(Result<VisualTreeReport, NativeError>),
    GpuSurfaceCreated(Result<GpuSurfaceReport, NativeError>),
    SurfaceConfigured,
    CompositionCommitted(Result<(), NativeError>),
    FrameRendered(Result<(), NativeError>),
}

/// The native work the controller asks the host to perform next.
#[derive(Clone, Copy, PartialEq, Eq, Structural, Debug)]
pub enum Action {
    /// Ask the 3D device whether the system has removed it.
    CheckDeviceLiveness { device3d: u64 },
    /// Create the 3D device with hardware acceleration and 2D/compositor
    /// interop, derive the 2D device from it and the desktop-composition
    /// device from that.
    CreateDeviceStack,
    /// Drop the composition target currently bound to the window; the
    /// window must be free before a new target can be bound to it.
    ReleaseTarget,
    /// Bind a fresh composition target to the window handle.
    CreateTarget { desktop: u64, hwnd: u64 },
    /// Create the root visual, attach it as the target's root, create the
    /// content visual, add it under the root, and read the client area.
    BuildVisualTree { desktop: u64, target: u64 },
    /// Bind a presentable surface to the content visual, select a
    /// compatible adapter (no software fallback), request a device and
    /// queue with no extra features, and query the surface capabilities.
    CreateGpuSurface { visual: u64, width: u32, height: u32 },
    /// Apply the given configuration to the surface.
    ConfigureSurface { surface: u64, device: u64, config: SurfaceConfig },
    /// Commit the batched visual-tree changes atomically.
    CommitComposition { desktop: u64 },
    /// Acquire the next texture, clear it per the plan, submit and present.
    RenderFrame { plan: RenderPlan, surface: u64, device: u64, queue: u64 },
    /// Tell the window system the paint request was handled, so redraws
    /// are not re-posted; issued on success and failure alike.
    AcknowledgePaint { hwnd: u64 },
    /// Nothing to do.
    NoAction,
}

/// How a dispatched window message was routed.
#[derive(Clone, Copy, PartialEq, Eq, Structural, Debug)]
pub enum DispatchOutcome {
    /// The message was handled; the carried action (and the events it
    /// triggers) must be driven to completion before the next message.
    Handled { action: Action },
    /// A destroy notification: the message loop should end.
    Quit,
    /// Not ours; hand the message to the platform's default handler.
    PassToDefault,
}

/// The window controller: owns the model of the native window handle, the
/// device stack, the compositor objects and the GPU surface state, and
/// decides every step of the paint/resize/recovery lifecycle. The host
/// performs the native calls it is handed and feeds the outcomes back.
#[derive(Clone, Copy, Debug)]
pub struct Controller {
    /// The native window handle; set exactly once, at window-creation
    /// callback time, before any other message is dispatched.
    pub hwnd: Option<u64>,
    /// The 3D device at the root of the device stack. Present means
    /// "presumed healthy": loss is detected by an explicit liveness query
    /// at the next paint, never cached as a flag.
    pub device3d: Option<u64>,
    /// The desktop-composition device, kept from the last completed
    /// rebuild.
    pub desktop: Option<u64>,
    /// The composition target currently bound to the window handle; at
    /// most one may be bound at a time.
    pub target: Option<u64>,
    /// The GPU surface state, absent until the first successful rebuild;
    /// left in place on device loss until the next rebuild replaces it.
    pub surface: Option<SurfaceState>,
    /// The paint step in flight, if any.
    pub phase: Phase,
}

impl Controller {
    /// Well-formedness of the controller between steps: a paint in flight
    /// implies the window handle is set; an idle controller with a device
    /// stack also holds a surface (they are built together); a target is
    /// only awaited after the previous one was released; and the phases
    /// past surface creation hold a surface.
    pub open spec fn wf(self) -> bool {
        &&& (self.phase !is Idle ==> self.hwnd is Some)
        &&& (self.phase is Idle ==> (self.device3d is Some ==> self.surface is Some))
        &&& (self.phase is AwaitLiveness ==> self.device3d is Some && self.surface is Some)
        &&& (self.phase matches Phase::AwaitTarget { .. } ==> self.target is None)
        &&& (self.phase matches Phase::AwaitConfigure { .. } ==> self.surface is Some)
        &&& (self.phase matches Phase::AwaitCommit { .. } ==> self.surface is Some)
        &&& (self.phase is AwaitRender ==> self.surface is Some)
    }

    /// Which event answers the step in flight. Client rectangles reported
    /// by the platform have ordered edges.
    pub open spec fn accepts(self, e: Event) -> bool {
        match (self.phase, e) {
            (Phase::AwaitLiveness, Event::LivenessChecked(_)) => true,
            (Phase::AwaitDeviceStack, Event::DeviceStackCreated(_)) => true,
            (Phase::AwaitRelease { .. }, Event::TargetReleased) => true,
            (Phase::AwaitTarget { .. }, Event::TargetCreated(_)) => true,
            (Phase::AwaitVisualTree { .. }, Event::VisualTreeBuilt(res)) => (res
                matches Ok(rep) ==> rep.client_rect.wf()),
            (Phase::AwaitGpuSurface { .. }, Event::GpuSurfaceCreated(_)) => true,
            (Phase::AwaitConfigure { .. }, Event::SurfaceConfigured) => true,
            (Phase::AwaitCommit { .. }, Event::CompositionCommitted(_)) => true,
            (Phase::AwaitRender, Event::FrameRendered(_)) => true,
            _ => false,
        }
    }

    /// A fresh controller: no window handle yet, nothing created, no paint
    /// in flight.
    pub fn new() -> (c: Controller)
        ensures
            c.hwnd is None,
            c.device3d is None,
            c.desktop is None,
            c.target is None,
            c.surface is None,
            c.phase is Idle,
            c.wf(),
    {
        Controller {
            hwnd: None,
            device3d: None,
            desktop: None,
            target: None,
            surface: None,
            phase: Phase::Idle,
        }
    }

    /// Records the window handle delivered by the one-time creation
    /// callback. The association is made exactly once: a handle must not
    /// already be set.
    pub fn associate_window(&mut self, hwnd: u64)
        requires
            old(self).wf(),
            old(self).hwnd is None,
        ensures
            final(self).wf(),
            *final(self) == (Controller { hwnd: Some(hwnd), ..*old(self) }),
    {
        self.hwnd = Some(hwnd);
    }

    /// The paint acknowledged and the controller back at rest.
    pub open spec fn finish_paint_spec(c: Controller) -> (Controller, Action) {
        (Controller { phase: Phase::Idle, ..c }, Action::AcknowledgePaint { hwnd: c.hwnd->0 })
    }

    /// Recovery from any failure along the paint path: the device stack is
    /// cleared (everything else is left for the next rebuild to replace)
    /// and the paint is still acknowledged, so the window system does not
    /// keep re-posting redraw requests for a frame that cannot render.
    pub open spec fn fail_paint_spec(c: Controller) -> (Controller, Action) {
        (
            Controller { device3d: None, phase: Phase::Idle, ..c },
            Action::AcknowledgePaint { hwnd: c.hwnd->0 },
        )
    }

    /// After the device stack is known healthy (or freshly rebuilt): render
    /// one frame if a surface exists at a nonzero size, else just
    /// acknowledge the paint.
    pub open spec fn render_or_finish_spec(c: Controller) -> (Controller, Action) {
        match c.surface {
            Some(st) => if st.renderable() {
                (
                    Controller { phase: Phase::AwaitRender, ..c },
                    Action::RenderFrame {
                        plan: st.spec_render_plan(),
                        surface: st.surface,
                        device: st.device,
                        queue: st.queue,
                    },
                )
            } else {
                Self::finish_paint_spec(c)
            },
            None => Self::finish_paint_spec(c),
        }
    }

    /// The start of a full rebuild of device stack, compositor tree and
    /// GPU surface.
    pub open spec fn create_resources_spec(c: Controller) -> (Controller, Action) {
        (Controller { phase: Phase::AwaitDeviceStack, ..c }, Action::CreateDeviceStack)
    }

    /// A paint request: an existing device stack is re-validated first;
    /// with no device stack, a full rebuild begins.
    pub open spec fn paint_spec(c: Controller) -> (Controller, Action) {
        match c.device3d {
            Some(d) => (
                Controller { phase: Phase::AwaitLiveness, ..c },
                Action::CheckDeviceLiveness { device3d: d },
            ),
            None => Self::create_resources_spec(c),
        }
    }

    /// A size notification: the stored surface configuration takes the
    /// unpacked width and height and the surface is reconfigured in place;
    /// a no-op when no surface exists yet. The device stack is never
    /// touched.
    pub open spec fn size_spec(c: Controller, lparam: u32) -> (Controller, Action) {
        match c.surface {
            Some(st) => {
                let st2 = st.spec_resized(spec_loword(lparam), spec_hiword(lparam));
                (
                    Controller { surface: Some(st2), ..c },
                    Action::ConfigureSurface {
                        surface: st2.surface,
                        device: st2.device,
                        config: st2.config,
                    },
                )
            },
            None => (c, Action::NoAction),
        }
    }

    /// Routing of a window message: paint requests to the paint path, size
    /// notifications to the resize path, destroy notifications to a quit
    /// signal, everything else to the platform's default handler.
    pub open spec fn message_spec(c: Controller, message: u32, lparam: u32) -> (
        Controller,
        DispatchOutcome,
    ) {
        if message == WM_PAINT {
            let pa = Self::paint_spec(c);
            (pa.0, DispatchOutcome::Handled { action: pa.1 })
        } else if message == WM_SIZE {
            let sa = Self::size_spec(c, lparam);
            (sa.0, DispatchOutcome::Handled { action: sa.1 })
        } else if message == WM_DESTROY {
            (c, DispatchOutcome::Quit)
        } else {
            (c, DispatchOutcome::PassToDefault)
        }
    }

    /// One transition of the paint machine: what the controller does with
    /// the outcome of the step it was waiting for.
    pub open spec fn step_spec(c: Controller, e: Event) -> (Controller, Action) {
        match (c.phase, e) {
            (Phase::AwaitLiveness, Event::LivenessChecked(res)) => match res {
                Ok(_) => Self::render_or_finish_spec(c),
                Err(_) => Self::fail_paint_spec(c),
            },
            (Phase::AwaitDeviceStack, Event::DeviceStackCreated(res)) => match res {
                Ok(ids) => {
                    let c2 = Controller { device3d: Some(ids.device3d), ..c };
                    if c.target is Some {
                        (
                            Controller { phase: Phase::AwaitRelease { desktop: ids.desktop }, ..c2 },
                            Action::ReleaseTarget,
                        )
                    } else {
                        (
                            Controller { phase: Phase::AwaitTarget { desktop: ids.desktop }, ..c2 },
                            Action::CreateTarget { desktop: ids.desktop, hwnd: c.hwnd->0 },
                        )
                    }
                },
                Err(_) => Self::fail_paint_spec(c),
            },
            (Phase::AwaitRelease { desktop }, Event::TargetReleased) => (
                Controller { target: None, phase: Phase::AwaitTarget { desktop }, ..c },
                Action::CreateTarget { desktop, hwnd: c.hwnd->0 },
            ),
            (Phase::AwaitTarget { desktop }, Event::TargetCreated(res)) => match res {
                Ok(t) => (
                    Controller { target: Some(t), phase: Phase::AwaitVisualTree { desktop }, ..c },
                    Action::BuildVisualTree { desktop, target: t },
                ),
                Err(_) => Self::fail_paint_spec(c),
            },
            (Phase::AwaitVisualTree { desktop }, Event::VisualTreeBuilt(res)) => match res {
                Ok(rep) => {
                    let width = rep.client_rect.spec_width() as u32;
                    let height = rep.client_rect.spec_height() as u32;
                    (
                        Controller {
                            phase: Phase::AwaitGpuSurface { desktop, width, height },
                            ..c
                        },
                        Action::CreateGpuSurface { visual: rep.content_visual, width, height },
                    )
                },
                Err(_) => Self::fail_paint_spec(c),
            },
            (Phase::AwaitGpuSurface { desktop, width, height }, Event::GpuSurfaceCreated(res)) => match res {
                Ok(rep) => if rep.caps.formats@.contains(PixelFormat::Bgra8UnormSrgb)
                    && rep.caps.alpha_modes@.len() > 0 {
                    let st = SurfaceState::spec_new(
                        rep.device,
                        rep.queue,
                        rep.surface,
                        rep.caps,
                        width,
                        height,
                    );
                    (
                        Controller {
                            surface: Some(st),
                            phase: Phase::AwaitConfigure { desktop },
                            ..c
                        },
                        Action::ConfigureSurface {
                            surface: rep.surface,
                            device: rep.device,
                            config: st.config,
                        },
                    )
                } else {
                    Self::fail_paint_spec(c)
                },
                Err(_) => Self::fail_paint_spec(c),
            },
            (Phase::AwaitConfigure { desktop }, Event::SurfaceConfigured) => (
                Controller { phase: Phase::AwaitCommit { desktop }, ..c },
                Action::CommitComposition { desktop },
            ),
            (Phase::AwaitCommit { desktop }, Event::CompositionCommitted(res)) => match res {
                Ok(_) => Self::render_or_finish_spec(
                    Controller { desktop: Some(desktop), ..c },
                ),
                Err(_) => Self::fail_paint_spec(c),
            },
            (Phase::AwaitRender, Event::FrameRendered(res)) => match res {
                Ok(_) => Self::finish_paint_spec(c),
                Err(_) => Self::fail_paint_spec(c),
            },
            _ => (c, Action::NoAction),
        }
    }

    fn finish_paint(&mut self) -> (a: Action)
        requires
            old(self).hwnd is Some,
        ensures
            (*final(self), a) == Self::finish_paint_spec(*old(self)),
    {
        self.phase = Phase::Idle;
        Action::AcknowledgePaint { hwnd: self.hwnd.unwrap() }
    }

    fn fail_paint(&mut self) -> (a: Action)
        requires
            old(self).hwnd is Some,
        ensures
            (*final(self), a) == Self::fail_paint_spec(*old(self)),
    {
        self.device3d = None;
        self.phase = Phase::Idle;
        Action::AcknowledgePaint { hwnd: self.hwnd.unwrap() }
    }

    fn render_or_finish(&mut self) -> (a: Action)
        requires
            old(self).hwnd is Some,
        ensures
            (*final(self), a) == Self::render_or_finish_spec(*old(self)),
    {
        let maybe_surface = self.surface;
        match maybe_surface {
            Some(st) => {
                if st.config.width > 0 && st.config.height > 0 {
                    self.phase = Phase::AwaitRender;
                    Action::RenderFrame {
                        plan: st.render_plan(),
                        surface: st.surface,
                        device: st.device,
                        queue: st.queue,
                    }
                } else {
                    self.finish_paint()
                }
            },
            None => self.finish_paint(),
        }
    }

    /// Starts the full rebuild of the device stack, compositor target,
    /// visual tree and GPU surface. Calling this while a device stack is
    /// already present is a precondition violation: an existing stack must
    /// never be silently re-created over.
    pub fn create_device_resources(&mut self) -> (a: Action)
        requires
            old(self).wf(),
            old(self).hwnd is Some,
            old(self).phase is Idle,
            old(self).device3d is None,
        ensures
            final(self).wf(),
            (*final(self), a) == Self::create_resources_spec(*old(self)),
    {
        self.phase = Phase::AwaitDeviceStack;
        Action::CreateDeviceStack
    }

    /// A paint request: re-validate an existing device stack, or start a
    /// full rebuild when none exists.
    pub fn paint_handler(&mut self) -> (a: Action)
        requires
            old(self).wf(),
            old(self).hwnd is Some,
            old(self).phase is Idle,
        ensures
            final(self).wf(),
            (*final(self), a) == Self::paint_spec(*old(self)),
    {
        let dev = self.device3d;
        match dev {
            Some(d) => {
                self.phase = Phase::AwaitLiveness;
                Action::CheckDeviceLiveness { device3d: d }
            },
            None => self.create_device_resources(),
        }
    }

    /// A size notification: unpack the new client-area size from the
    /// message parameter and update the surface configuration in place; a
    /// no-op when no surface exists yet. Never rebuilds the device stack.
    pub fn size_handler(&mut self, lparam: u32) -> (a: Action)
        requires
            old(self).wf(),
            old(self).phase is Idle,
        ensures
            final(self).wf(),
            (*final(self), a) == Self::size_spec(*old(self), lparam),
            final(self).device3d == old(self).device3d,
            final(self).desktop == old(self).desktop,
            final(self).target == old(self).target,
            final(self).phase == old(self).phase,
    {
        let w: u32 = loword(lparam) as u32;
        let h: u32 = hiword(lparam) as u32;
        match &mut self.surface {
            Some(st) => {
                st.resize(w, h);
                Action::ConfigureSurface { surface: st.surface, device: st.device, config: st.config }
            },
            None => Action::NoAction,
        }
    }

    /// Routes one window message. Paint requests and size notifications
    /// come back as `Handled` with the first native action to perform;
    /// destroy notifications ask the host to end the message loop; all
    /// other messages go to the platform's default handler.
    ///
    /// Dispatch presumes the one-time window association has been made and
    /// no paint is in flight: messages delivered before the association
    /// must be handed to the platform default by the host, and the
    /// single-threaded pump drives every paint to completion before the
    /// next message arrives.
    pub fn message_handler(&mut self, message: u32, lparam: u32) -> (out: DispatchOutcome)
        requires
            old(self).wf(),
            old(self).hwnd is Some,
            old(self).phase is Idle,
        ensures
            final(self).wf(),
            (*final(self), out) == Self::message_spec(*old(self), message, lparam),
    {
        if message == WM_PAINT {
            let a = self.paint_handler();
            DispatchOutcome::Handled { action: a }
        } else if message == WM_SIZE {
            let a = self.size_handler(lparam);
            DispatchOutcome::Handled { action: a }
        } else if message == WM_DESTROY {
            DispatchOutcome::Quit
        } else {
            DispatchOutcome::PassToDefault
        }
    }

    /// Feeds back the outcome of the native step the controller was
    /// waiting for, and hands out the next action of the paint.
    pub fn step(&mut self, e: Event) -> (a: Action)
        requires
            old(self).wf(),
            old(self).phase !is Idle,
            old(self).accepts(e),
        ensures
            final(self).wf(),
            (*final(self), a) == Self::step_spec(*old(self), e),
    {
        let phase = self.phase;
        match (phase, e) {
            (Phase::AwaitLiveness, Event::LivenessChecked(res)) => match res {
                Ok(_) => self.render_or_finish(),
                Err(_) => self.fail_paint(),
            },
            (Phase::AwaitDeviceStack, Event::DeviceStackCreated(res)) => match res {
                Ok(ids) => {
                    self.device3d = Some(ids.device3d);
                    if self.target.is_some() {
                        self.phase = Phase::AwaitRelease { desktop: ids.desktop };
                        Action::ReleaseTarget
                    } else {
                        self.phase = Phase::AwaitTarget { desktop: ids.desktop };
                        Action::CreateTarget { desktop: ids.desktop, hwnd: self.hwnd.unwrap() }
                    }
                },
                Err(_) => self.fail_paint(),
            },
            (Phase::AwaitRelease { desktop }, Event::TargetReleased) => {
                self.target = None;
                self.phase = Phase::AwaitTarget { desktop };
                Action::CreateTarget { desktop, hwnd: self.hwnd.unwrap() }
            },
            (Phase::AwaitTarget { desktop }, Event::TargetCreated(res)) => match res {
                Ok(t) => {
                    self.target = Some(t);
                    self.phase = Phase::AwaitVisualTree { desktop };
                    Action::BuildVisualTree { desktop, target: t }
                },
                Err(_) => self.fail_paint(),
            },
            (Phase::AwaitVisualTree { desktop }, Event::VisualTreeBuilt(res)) => match res {
                Ok(rep) => {
                    let width = rep.client_rect.width();
                    let height = rep.client_rect.height();
                    self.phase = Phase::AwaitGpuSurface { desktop, width, height };
                    Action::CreateGpuSurface { visual: rep.content_visual, width, height }
                },
                Err(_) => self.fail_paint(),
            },
            (Phase::AwaitGpuSurface { desktop, width, height }, Event::GpuSurfaceCreated(res)) => match res {
                Ok(rep) => {
                    match SurfaceState::new(rep.device, rep.queue, rep.surface, &rep.caps, width, height) {
                        Ok(st) => {
                            self.surface = Some(st);
                            self.phase = Phase::AwaitConfigure { desktop };
                            Action::ConfigureSurface {
                                surface: rep.surface,
                                device: rep.device,
                                config: st.config,
                            }
                        },
                        Err(_) => self.fail_paint(),
                    }
                },
                Err(_) => self.fail_paint(),
            },
            (Phase::AwaitConfigure { desktop }, Event::SurfaceConfigured) => {
                self.phase = Phase::AwaitCommit { desktop };
                Action::CommitComposition { desktop }
            },
            (Phase::AwaitCommit { desktop }, Event::CompositionCommitted(res)) => match res {
                Ok(_) => {
                    self.desktop = Some(desktop);
                    self.render_or_finish()
                },
                Err(_) => self.fail_paint(),
            },
            (Phase::AwaitRender, Event::FrameRendered(res)) => match res {
                Ok(_) => self.finish_paint(),
                Err(_) => self.fail_paint(),
            },
            _ => unreached(),
        }
    }

    /// The controller after a whole sequence of size notifications,
    /// dispatched in order.
    pub open spec fn apply_size_messages(c: Controller, lparams: Seq<u32>) -> Controller
        decreases lparams.len(),
    {
        if lparams.len() == 0 {
            c
        } else {
            Self::apply_size_messages(
                Self::size_spec(c, lparams[0]).0,
                lparams.subrange(1, lparams.len() as int),
            )
        }
    }

    /// Law: for any sequence of size notifications, once the last one is
    /// processed the surface configuration holds exactly the most recently
    /// delivered client-area size — and no amount of resizing ever touches
    /// the device stack, the compositor objects, or the paint phase.
    pub proof fn lemma_resize_last_wins(c: Controller, lparams: Seq<u32>)
        requires
            c.surface is Some,
            lparams.len() > 0,
        ensures
            ({
                let d = Self::apply_size_messages(c, lparams);
                &&& d.surface is Some
                &&& d.surface->0.config.width == spec_loword(lparams.last())
                &&& d.surface->0.config.height == spec_hiword(lparams.last())
                &&& d.device3d == c.device3d
                &&& d.desktop == c.desktop
                &&& d.target == c.target
                &&& d.hwnd == c.hwnd
                &&& d.phase == c.phase
            }),
        decreases lparams.len(),
    {
        let c1 = Self::size_spec(c, lparams[0]).0;
        let tail = lparams.subrange(1, lparams.len() as int);
        assert(Self::apply_size_messages(c, lparams) == Self::apply_size_messages(c1, tail));
        if lparams.len() > 1 {
            Self::lemma_resize_last_wins(c1, tail);
            assert(tail.last() == lparams.last());
        } else {
            assert(tail.len() == 0);
            assert(Self::apply_size_messages(c1, tail) == c1);
        }
    }

    /// Whether the event reports a failed native step.
    pub open spec fn failure_event(e: Event) -> bool {
        match e {
            Event::LivenessChecked(res) => res is Err,
            Event::DeviceStackCreated(res) => res is Err,
            Event::TargetReleased => false,
            Event::TargetCreated(res) => res is Err,
            Event::VisualTreeBuilt(res) => res is Err,
            Event::GpuSurfaceCreated(res) => res is Err,
            Event::SurfaceConfigured => false,
            Event::CompositionCommitted(res) => res is Err,
            Event::FrameRendered(res) => res is Err,
        }
    }

    /// Law: a failure reported at any step of a paint — the liveness query,
    /// any stage of the rebuild, or the frame itself — always leaves the
    /// device stack absent with the paint acknowledged, and the very next
    /// paint request starts a full rebuild. Repeated failures therefore
    /// never leave a half-built stack behind: recovery is idempotent.
    pub proof fn lemma_failure_clears_device_stack(c: Controller, e: Event)
        requires
            c.wf(),
            c.phase !is Idle,
            c.accepts(e),
            Self::failure_event(e),
        ensures
            ({
                let (c1, a1) = Self::step_spec(c, e);
                &&& c1.device3d is None
                &&& c1.phase is Idle
                &&& a1 matches Action::AcknowledgePaint { .. }
                &&& Self::paint_spec(c1).1 is CreateDeviceStack
                &&& Self::paint_spec(c1).0.phase is AwaitDeviceStack
            }),
    {
    }

    /// Law: the liveness query itself is only ever issued at the start of
    /// a paint on a present device stack, and its failure — injected at
    /// any paint — makes the stack absent before the paint is acknowledged.
    pub proof fn lemma_loss_detected_at_paint(c: Controller, err: NativeError)
        requires
            c.wf(),
            c.phase is AwaitLiveness,
        ensures
            ({
                let (c1, a1) = Self::step_spec(c, Event::LivenessChecked(Err(err)));
                &&& c.device3d is Some
                &&& c1.device3d is None
                &&& c1.surface == c.surface
                &&& c1.phase is Idle
                &&& a1 matches Action::AcknowledgePaint { .. }
                &&& Self::paint_spec(c1).1 is CreateDeviceStack
            }),
    {
    }

    /// Law: the machine asks for a composition target to be created only
    /// when no target is bound to the window any more — a previously held
    /// target is always released first — and a successful creation binds
    /// exactly the new one. Together with the target being a single
    /// optional slot, at most one target is ever bound to the window.
    pub proof fn lemma_target_exclusive(c: Controller, e: Event)
        requires
            c.wf(),
            c.phase !is Idle,
            c.accepts(e),
        ensures
            ({
                let (c1, a1) = Self::step_spec(c, e);
                &&& (a1 matches Action::CreateTarget { .. } ==> c1.target is None)
                &&& (e matches Event::TargetCreated(res) ==> (res matches Ok(t)
                    ==> c1.target == Some(t)))
                &&& c1.wf()
            }),
    {
    }

    /// Law: when the reported surface capabilities lack the required
    /// sRGB-encoded BGRA format, the rebuild fails deterministically: no
    /// surface state is installed (no silent fallback to another format),
    /// the device stack is cleared, and the next paint retries the rebuild.
    pub proof fn lemma_srgb_format_required(c: Controller, rep: GpuSurfaceReport)
        requires
            c.wf(),
            c.phase matches Phase::AwaitGpuSurface { .. },
            !rep.caps.formats@.contains(PixelFormat::Bgra8UnormSrgb),
        ensures
            ({
                let (c1, a1) = Self::step_spec(c, Event::GpuSurfaceCreated(Ok(rep)));
                &&& c1.surface == c.surface
                &&& c1.device3d is None
                &&& c1.phase is Idle
                &&& a1 matches Action::AcknowledgePaint { .. }
                &&& Self::paint_spec(c1).1 is CreateDeviceStack
            }),
    {
    }

    /// Whether no paint step is in flight: the host drives events into the
    /// controller until it is idle again.
    pub fn is_idle(&self) -> (r: bool)
        ensures
            r == (self.phase is Idle),
    {
        match self.phase {
            Phase::Idle => true,
            _ => false,
        }
    }
}

} // verus!
