use vstd::prelude::*;

use crate::error::InitError;
use crate::geometry::Rect;

verus! {

/// Where a view session stands. Each stage follows the one before it; a
/// window's destroy notification ends the session from any stage.
#[derive(Clone, Copy, Debug, PartialEq, Eq, Structural)]
pub enum Stage {
    Uninitialized,
    EnvironmentPending,
    EnvironmentReady,
    ControllerPending,
    ControllerReady,
    ViewConfigured,
    Visible,
    Destroyed,
    Failed,
}

/// One step of the initialization protocol at the subsystem boundary.
#[derive(Clone, Copy, Debug, PartialEq, Eq, Structural)]
pub enum Step {
    SubmitEnvironment,
    EnvironmentCreated,
    SubmitController,
    ControllerCreated,
    EnableDevTools,
    SetBounds,
    LoadContent,
    AttachHandlers,
    Show,
    Focus,
}

/// Work the session asks the host to perform on the controller and its view.
#[derive(Clone, Copy, Debug, PartialEq, Eq, Structural)]
pub enum Command {
    EnableDevTools,
    SetBounds(Rect),
    LoadContent,
    Show,
    Focus,
}

/// The order in which a successful initialization takes its steps.
pub open spec fn protocol() -> Seq<Step> {
    seq![
        Step::SubmitEnvironment,
        Step::EnvironmentCreated,
        Step::SubmitController,
        Step::ControllerCreated,
        Step::EnableDevTools,
        Step::SetBounds,
        Step::LoadContent,
        Step::AttachHandlers,
        Step::Show,
        Step::Focus,
    ]
}

/// The abstract state of a session.
pub struct SessionView {
    pub stage: Stage,
    /// Steps taken so far, in order.
    pub log: Seq<Step>,
    /// The bounds last given to the controller.
    pub bounds: Option<Rect>,
    /// The window holds a back-reference to the controller for its callbacks.
    pub attached: bool,
    /// That back-reference has been released.
    pub released: bool,
}

impl SessionView {
    pub open spec fn wf(self) -> bool {
        &&& self.log.len() <= protocol().len()
        &&& self.log == protocol().take(self.log.len() as int)
        &&& (self.attached <==> self.log.len() >= 8)
        &&& (self.released ==> self.attached)
        &&& match self.stage {
            Stage::Uninitialized => self.log.len() == 0,
            Stage::EnvironmentPending => self.log.len() == 1,
            Stage::EnvironmentReady => self.log.len() == 2,
            Stage::ControllerPending => self.log.len() == 3,
            Stage::ControllerReady => self.log.len() == 4,
            Stage::ViewConfigured => self.log.len() == 7 || self.log.len() == 8,
            Stage::Visible => self.log.len() == 10,
            Stage::Destroyed => true,
            Stage::Failed => true,
        }
        &&& (self.stage != Stage::Destroyed ==> !self.released)
    }

    /// Back-references taken: one once the handlers are attached.
    pub open spec fn acquires(self) -> nat {
        if self.attached { 1 } else { 0 }
    }

    /// Back-references given up.
    pub open spec fn releases(self) -> nat {
        if self.released { 1 } else { 0 }
    }

    /// Resize and destroy callbacks can still reach the controller.
    pub open spec fn live(self) -> bool {
        self.attached && !self.released
    }

    /// The state after a resize to the client area `client`, and the bounds
    /// then given to the controller, if any.
    pub open spec fn resized(self, client: Rect) -> (SessionView, Option<Rect>) {
        if self.live() {
            (SessionView { bounds: Some(client.anchored_spec()), ..self }, Some(client.anchored_spec()))
        } else {
            (self, None)
        }
    }

    /// The state after a destroy notification, and whether it released the
    /// back-reference.
    pub open spec fn destroyed(self) -> (SessionView, bool) {
        (SessionView { stage: Stage::Destroyed, released: self.attached, ..self }, self.live())
    }
}

/// The state of one window's browser view, from bootstrap to destruction.
pub struct Session {
    stage: Stage,
    log: Vec<Step>,
    bounds: Option<Rect>,
    attached: bool,
    released: bool,
}

impl View for Session {
    type V = SessionView;

    closed spec fn view(&self) -> SessionView {
        SessionView {
            stage: self.stage,
            log: self.log@,
            bounds: self.bounds,
            attached: self.attached,
            released: self.released,
        }
    }
}

proof fn lemma_extend(log: Seq<Step>, step: Step)
    requires
        log.len() < protocol().len(),
        log == protocol().take(log.len() as int),
        step == protocol()[log.len() as int],
    ensures
        log.push(step) == protocol().take(log.len() + 1 as int),
{
    assert(log.push(step) =~= protocol().take(log.len() + 1 as int));
}

impl Session {
    pub open spec fn wf(&self) -> bool {
        self@.wf()
    }

    /// A session that has taken no step yet.
    pub fn new() -> (r: Session)
        ensures
            r.wf(),
            r@.stage == Stage::Uninitialized,
            r@.log == Seq::<Step>::empty(),
            r@.bounds is None,
            !r@.attached,
            !r@.released,
    {
        let r = Session {
            stage: Stage::Uninitialized,
            log: Vec::new(),
            bounds: None,
            attached: false,
            released: false,
        };
        proof {
            assert(r@.log =~= protocol().take(0));
        }
        r
    }

    pub fn stage(&self) -> (r: Stage)
        ensures
            r == self@.stage,
    {
        self.stage
    }

    /// The steps taken so far, in order.
    pub fn steps(&self) -> (r: Vec<Step>)
        ensures
            r@ == self@.log,
    {
        self.log.clone()
    }

    /// The bounds last given to the controller.
    pub fn bounds(&self) -> (r: Option<Rect>)
        ensures
            r == self@.bounds,
    {
        self.bounds
    }

    /// How many back-references to the controller were handed to the window.
    pub fn acquire_count(&self) -> (r: u8)
        ensures
            r as nat == self@.acquires(),
    {
        if self.attached { 1 } else { 0 }
    }

    /// How many back-references to the controller were released.
    pub fn release_count(&self) -> (r: u8)
        ensures
            r as nat == self@.releases(),
    {
        if self.released { 1 } else { 0 }
    }

    fn record(&mut self, step: Step)
        requires
            old(self)@.log.len() < protocol().len(),
            old(self)@.log == protocol().take(old(self)@.log.len() as int),
            step == protocol()[old(self)@.log.len() as int],
        ensures
            final(self)@ == (SessionView { log: old(self)@.log.push(step), ..old(self)@ }),
            final(self)@.log == protocol().take(old(self)@.log.len() + 1 as int),
    {
        proof {
            lemma_extend(self@.log, step);
        }
        self.log.push(step);
    }

    /// Starts environment creation with the resolved UI locale name. Without a
    /// name the session fails with a configuration error and nothing is
    /// submitted; with one, the creation request is submitted and the name is
    /// returned as the language to request.
    pub fn begin_environment(&mut self, locale: Option<Vec<u16>>) -> (r: Result<Vec<u16>, InitError>)
        requires
            old(self).wf(),
            old(self)@.stage == Stage::Uninitialized,
        ensures
            final(self).wf(),
            locale is None ==> r == Err::<Vec<u16>, InitError>(InitError::Configuration)
                && final(self)@ == (SessionView { stage: Stage::Failed, ..old(self)@ }),
            locale is Some ==> r is Ok && r.unwrap()@ == locale.unwrap()@
                && final(self)@ == (SessionView {
                    stage: Stage::EnvironmentPending,
                    log: old(self)@.log.push(Step::SubmitEnvironment),
                    ..old(self)@
                }),
    {
        match locale {
            None => {
                self.stage = Stage::Failed;
                Err(InitError::Configuration)
            },
            Some(name) => {
                self.record(Step::SubmitEnvironment);
                self.stage = Stage::EnvironmentPending;
                Ok(name)
            },
        }
    }

    /// Takes in the outcome of environment creation and passes it on.
    pub fn environment_settled<T>(&mut self, outcome: Result<T, InitError>) -> (r: Result<T, InitError>)
        requires
            old(self).wf(),
            old(self)@.stage == Stage::EnvironmentPending,
        ensures
            final(self).wf(),
            r == outcome,
            outcome is Err ==> final(self)@ == (SessionView { stage: Stage::Failed, ..old(self)@ }),
            outcome is Ok ==> final(self)@ == (SessionView {
                stage: Stage::EnvironmentReady,
                log: old(self)@.log.push(Step::EnvironmentCreated),
                ..old(self)@
            }),
    {
        match outcome {
            Ok(v) => {
                self.record(Step::EnvironmentCreated);
                self.stage = Stage::EnvironmentReady;
                Ok(v)
            },
            Err(e) => {
                self.stage = Stage::Failed;
                Err(e)
            },
        }
    }

    /// Submits controller creation; only an environment that is ready allows it.
    pub fn begin_controller(&mut self)
        requires
            old(self).wf(),
            old(self)@.stage == Stage::EnvironmentReady,
        ensures
            final(self).wf(),
            final(self)@ == (SessionView {
                stage: Stage::ControllerPending,
                log: old(self)@.log.push(Step::SubmitController),
                ..old(self)@
            }),
    {
        self.record(Step::SubmitController);
        self.stage = Stage::ControllerPending;
    }

    /// Takes in the outcome of controller creation and passes it on.
    pub fn controller_settled<T>(&mut self, outcome: Result<T, InitError>) -> (r: Result<T, InitError>)
        requires
            old(self).wf(),
            old(self)@.stage == Stage::ControllerPending,
        ensures
            final(self).wf(),
            r == outcome,
            outcome is Err ==> final(self)@ == (SessionView { stage: Stage::Failed, ..old(self)@ }),
            outcome is Ok ==> final(self)@ == (SessionView {
                stage: Stage::ControllerReady,
                log: old(self)@.log.push(Step::ControllerCreated),
                ..old(self)@
            }),
    {
        match outcome {
            Ok(v) => {
                self.record(Step::ControllerCreated);
                self.stage = Stage::ControllerReady;
                Ok(v)
            },
            Err(e) => {
                self.stage = Stage::Failed;
                Err(e)
            },
        }
    }
    /// Configures the view once the controller exists. A controller without a
    /// view fails the session. Otherwise the returned commands turn on the
    /// developer tools, fit the controller to the window's client area at the
    /// origin, and load the initial page, in that order.
    pub fn configure_view(&mut self, has_view: bool, client: Rect) -> (r: Result<Vec<Command>, InitError>)
        requires
            old(self).wf(),
            old(self)@.stage == Stage::ControllerReady,
            client.is_valid(),
        ensures
            final(self).wf(),
            !has_view ==> r == Err::<Vec<Command>, InitError>(InitError::ViewUnavailable)
                && final(self)@ == (SessionView { stage: Stage::Failed, ..old(self)@ }),
            has_view ==> r is Ok && r.unwrap()@ == seq![
                Command::EnableDevTools,
                Command::SetBounds(client.anchored_spec()),
                Command::LoadContent,
            ] && final(self)@ == (SessionView {
                stage: Stage::ViewConfigured,
                log: old(self)@.log.push(Step::EnableDevTools).push(Step::SetBounds).push(
                    Step::LoadContent,
                ),
                bounds: Some(client.anchored_spec()),
                ..old(self)@
            }),
    {
        if !has_view {
            self.stage = Stage::Failed;
            return Err(InitError::ViewUnavailable);
        }
        let area = client.anchored();
        self.record(Step::EnableDevTools);
        self.record(Step::SetBounds);
        self.record(Step::LoadContent);
        self.bounds = Some(area);
        self.stage = Stage::ViewConfigured;
        let commands: Vec<Command> = vec![
            Command::EnableDevTools,
            Command::SetBounds(area),
            Command::LoadContent,
        ];
        proof {
            assert(commands@ =~= seq![
                Command::EnableDevTools,
                Command::SetBounds(client.anchored_spec()),
                Command::LoadContent,
            ]);
        }
        Ok(commands)
    }

    /// Hands the window its back-reference to the controller, so that resize
    /// and destroy notifications reach the session from now on.
    pub fn attach_handlers(&mut self)
        requires
            old(self).wf(),
            old(self)@.stage == Stage::ViewConfigured,
            !old(self)@.attached,
        ensures
            final(self).wf(),
            final(self)@ == (SessionView {
                log: old(self)@.log.push(Step::AttachHandlers),
                attached: true,
                ..old(self)@
            }),
    {
        self.record(Step::AttachHandlers);
        self.attached = true;
    }

    /// Makes the configured view visible and moves input focus into it.
    pub fn show(&mut self) -> (r: Vec<Command>)
        requires
            old(self).wf(),
            old(self)@.stage == Stage::ViewConfigured,
            old(self)@.attached,
        ensures
            final(self).wf(),
            r@ == seq![Command::Show, Command::Focus],
            final(self)@ == (SessionView {
                stage: Stage::Visible,
                log: old(self)@.log.push(Step::Show).push(Step::Focus),
                ..old(self)@
            }),
    {
        self.record(Step::Show);
        self.record(Step::Focus);
        self.stage = Stage::Visible;
        let commands: Vec<Command> = vec![Command::Show, Command::Focus];
        proof {
            assert(commands@ =~= seq![Command::Show, Command::Focus]);
        }
        commands
    }

    /// Ends initialization with `error`; every failure is final.
    pub fn fail(&mut self, error: InitError) -> (r: InitError)
        requires
            old(self).wf(),
            old(self)@.stage != Stage::Destroyed,
        ensures
            final(self).wf(),
            r == error,
            final(self)@ == (SessionView { stage: Stage::Failed, ..old(self)@ }),
    {
        self.stage = Stage::Failed;
        error
    }

    /// Handles a resize of the window to the client area `client`, read at
    /// the time of the event. While the window holds its back-reference the
    /// controller's bounds become `{0, 0, width, height}` of that area, and
    /// those bounds are returned; otherwise nothing is done.
    pub fn on_resize(&mut self, client: Rect) -> (r: Option<Rect>)
        requires
            old(self).wf(),
            client.is_valid(),
        ensures
            final(self).wf(),
            (final(self)@, r) == old(self)@.resized(client),
            old(self)@.live() ==> r == Some(client.anchored_spec())
                && final(self)@.bounds == Some(client.anchored_spec()),
            !old(self)@.live() ==> r is None && final(self)@ == old(self)@,
    {
        if self.attached && !self.released {
            let area = client.anchored();
            self.bounds = Some(area);
            Some(area)
        } else {
            None
        }
    }

    /// Handles the window's destroy notification: the back-reference is
    /// released if it is still held, and never a second time. Returns whether
    /// this call released it.
    pub fn on_destroy(&mut self) -> (r: bool)
        requires
            old(self).wf(),
        ensures
            final(self).wf(),
            (final(self)@, r) == old(self)@.destroyed(),
            r == old(self)@.live(),
            final(self)@.stage == Stage::Destroyed,
            final(self)@.releases() == final(self)@.acquires(),
    {
        let release = self.attached && !self.released;
        self.released = self.attached;
        self.stage = Stage::Destroyed;
        release
    }
}

/// Controller creation is never submitted before environment creation has
/// completed: in every reachable session, each submission of a controller is
/// preceded by a completed environment.
pub proof fn lemma_environment_before_controller(v: SessionView)
    requires
        v.wf(),
    ensures
        forall|i: int|
            0 <= i < v.log.len() && #[trigger] v.log[i] == Step::SubmitController ==> exists|j: int|
                0 <= j < i && v.log[j] == Step::EnvironmentCreated,
{
    assert forall|i: int|
        0 <= i < v.log.len() && #[trigger] v.log[i] == Step::SubmitController implies exists|j: int|
            0 <= j < i && v.log[j] == Step::EnvironmentCreated by {
        assert(v.log[i] == protocol()[i]);
        assert(i == 2);
        assert(v.log[1] == protocol()[1]);
    }
}

/// Once the window holds its back-reference, every resize sets the
/// controller's bounds to `{0, 0, width, height}` of the client area given at
/// that event, not of any earlier one: two resizes in a row give two updates.
pub proof fn lemma_resize_follows_client(v: SessionView, first: Rect, second: Rect)
    requires
        v.wf(),
        v.live(),
        first.is_valid(),
        second.is_valid(),
    ensures
        ({
            let (v1, b1) = v.resized(first);
            let (v2, b2) = v1.resized(second);
            &&& v1.wf()
            &&& v2.wf()
            &&& b1 == Some(Rect { left: 0, top: 0, right: first.width() as i32, bottom: first.height() as i32 })
            &&& v1.bounds == b1
            &&& b2 == Some(Rect { left: 0, top: 0, right: second.width() as i32, bottom: second.height() as i32 })
            &&& v2.bounds == b2
        }),
{
}

/// The back-reference is released exactly as many times as it was taken,
/// however many destroy notifications arrive: a second one releases nothing.
pub proof fn lemma_destroy_releases_once(v: SessionView)
    requires
        v.wf(),
    ensures
        ({
            let (v1, r1) = v.destroyed();
            let (v2, r2) = v1.destroyed();
            &&& v1.wf()
            &&& v2.wf()
            &&& !r2
            &&& v.releases() + (if r1 { 1nat } else { 0nat }) + (if r2 { 1nat } else { 0nat }) == v.acquires()
            &&& v2.releases() == v2.acquires()
        }),
{
}

} // verus!
