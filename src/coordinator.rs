use vstd::prelude::*;
use vstd::string::StringExecFns;

use crate::engine::{engine_commands, planned_commands, EngineCommand};
use crate::geometry::Size;
use crate::playback::PlaybackEvent;
use crate::registry::SurfaceRegistry;

verus! {

/// One step of work for the thread that owns the drawing contexts and the
/// engine handle.
#[derive(Debug)]
pub enum Action {
    /// Make the named surface's context current.
    MakeCurrent(String),
    /// Ask the engine for a frame at `size` in the named surface and present it.
    Render { id: String, size: Size },
    /// Resize the named surface.
    ResizeSurface { id: String, size: Size },
    /// Clear the named surface, at `size`, to a fully transparent frame.
    ClearSurface { id: String, size: Size },
    /// Send a command to the engine.
    Engine(EngineCommand),
}

/// An [`Action`] with window identifiers as character sequences.
pub enum ActionView {
    MakeCurrent(Seq<char>),
    Render(Seq<char>, Size),
    ResizeSurface(Seq<char>, Size),
    ClearSurface(Seq<char>, Size),
    Engine(EngineCommand),
}

impl View for Action {
    type V = ActionView;

    open spec fn view(&self) -> ActionView {
        match self {
            Action::MakeCurrent(id) => ActionView::MakeCurrent(id@),
            Action::Render { id, size } => ActionView::Render(id@, *size),
            Action::ResizeSurface { id, size } => ActionView::ResizeSurface(id@, *size),
            Action::ClearSurface { id, size } => ActionView::ClearSurface(id@, *size),
            Action::Engine(c) => ActionView::Engine(*c),
        }
    }
}

/// Why a request to the coordinator was refused; nothing changed.
#[derive(Debug)]
pub enum CoordError {
    /// No surface is registered under this window identifier.
    MissingTarget(String),
    /// The primary surface lives as long as the coordinator.
    PrimarySurface(String),
}

impl CoordError {
    /// A description of the refusal for the caller.
    pub fn message(&self) -> (r: String)
        ensures
            r@ == match self {
                CoordError::MissingTarget(id) => "Window context '"@ + id@ + "' not found"@,
                CoordError::PrimarySurface(id) => "Window context '"@ + id@
                    + "' is the primary one"@,
            },
    {
        let (id, tail) = match self {
            CoordError::MissingTarget(id) => (id, "' not found"),
            CoordError::PrimarySurface(id) => (id, "' is the primary one"),
        };
        let mut r = String::from_str("Window context '");
        r.append(id.as_str());
        r.append(tail);
        r
    }
}

/// The coordinator's state: the registered surfaces and their sizes, the
/// surface that receives frames, and the primary window's identifier.
pub struct CoordinatorModel {
    pub surfaces: Map<Seq<char>, Size>,
    pub active: Seq<char>,
    pub primary: Seq<char>,
}

pub open spec fn action_views(actions: Seq<Action>) -> Seq<ActionView> {
    actions.map_values(|a: Action| a@)
}

pub open spec fn outcome_view(r: Result<Vec<Action>, CoordError>) -> Result<
    Seq<ActionView>,
    CoordError,
> {
    match r {
        Ok(v) => Ok(action_views(v@)),
        Err(e) => Err(e),
    }
}

impl CoordinatorModel {
    /// The primary surface is always registered.
    pub open spec fn valid(self) -> bool {
        self.surfaces.contains_key(self.primary)
    }

    /// Whether the active surface has been torn down.
    pub open spec fn lost_active(self) -> bool {
        !self.surfaces.contains_key(self.active)
    }

    /// The surface that drawing goes to: the active one, or the primary one
    /// once the active one is gone.
    pub open spec fn draw_target(self) -> Seq<char> {
        if self.lost_active() {
            self.primary
        } else {
            self.active
        }
    }

    /// The context switch that fails over to the primary surface, if needed.
    pub open spec fn failover(self) -> Seq<ActionView> {
        if self.lost_active() {
            seq![ActionView::MakeCurrent(self.primary)]
        } else {
            seq![]
        }
    }

    /// The state with the surface `id` torn down.
    pub open spec fn retired(self, id: Seq<char>) -> CoordinatorModel {
        CoordinatorModel { surfaces: self.surfaces.remove(id), ..self }
    }

    /// The state after `event` has been handled.
    pub open spec fn after(self, event: PlaybackEvent) -> CoordinatorModel {
        match event {
            PlaybackEvent::Redraw | PlaybackEvent::Clear => CoordinatorModel {
                active: self.draw_target(),
                ..self
            },
            PlaybackEvent::Resize(id, w, h) => if self.surfaces.contains_key(id@) {
                CoordinatorModel {
                    surfaces: self.surfaces.insert(id@, Size::spec_clamped(w, h)),
                    ..self
                }
            } else {
                self
            },
            PlaybackEvent::SwitchTarget(id) => if self.surfaces.contains_key(id@) {
                CoordinatorModel { active: id@, ..self }
            } else {
                self
            },
            _ => self,
        }
    }

    /// What handling `event` yields: the actions to perform in order, or the
    /// refusal.
    pub open spec fn outcome(self, event: PlaybackEvent, idle_active: bool) -> Result<
        Seq<ActionView>,
        CoordError,
    > {
        match event {
            PlaybackEvent::Redraw => Ok(
                self.failover().push(
                    ActionView::Render(self.draw_target(), self.surfaces[self.draw_target()]),
                ),
            ),
            PlaybackEvent::Clear => Ok(
                seq![ActionView::Engine(EngineCommand::SetPause(true))].add(
                    self.failover(),
                ).push(
                    ActionView::ClearSurface(
                        self.draw_target(),
                        self.surfaces[self.draw_target()],
                    ),
                ),
            ),
            PlaybackEvent::Resize(id, w, h) => if self.surfaces.contains_key(id@) {
                Ok(seq![ActionView::ResizeSurface(id@, Size::spec_clamped(w, h))])
            } else {
                Err(CoordError::MissingTarget(id))
            },
            PlaybackEvent::SwitchTarget(id) => if self.surfaces.contains_key(id@) {
                Ok(seq![ActionView::MakeCurrent(id@)])
            } else {
                Err(CoordError::MissingTarget(id))
            },
            _ => Ok(
                planned_commands(event, idle_active).map_values(
                    |c: EngineCommand| ActionView::Engine(c),
                ),
            ),
        }
    }
}

/// The state after each of `events` has been handled, in order.
pub open spec fn after_all(s: CoordinatorModel, events: Seq<PlaybackEvent>) -> CoordinatorModel
    decreases events.len(),
{
    if events.len() == 0 {
        s
    } else {
        after_all(s, events.drop_last()).after(events.last())
    }
}

/// The clamped size requested by the last resize of `id` among `events`.
pub open spec fn last_resize(events: Seq<PlaybackEvent>, id: Seq<char>) -> Option<Size>
    decreases events.len(),
{
    if events.len() == 0 {
        None
    } else {
        match events.last() {
            PlaybackEvent::Resize(target, w, h) => if target@ == id {
                Some(Size::spec_clamped(w, h))
            } else {
                last_resize(events.drop_last(), id)
            },
            _ => last_resize(events.drop_last(), id),
        }
    }
}

/// After any sequence of resize intents, every registered surface that was
/// named in one reports the clamped size `(max(w, 1), max(h, 1))` of the last
/// one naming it, and every other surface keeps its size. No surface is added
/// or removed, and the active target does not move.
pub proof fn lemma_resize_sequence(s: CoordinatorModel, events: Seq<PlaybackEvent>)
    requires
        forall|i: int| 0 <= i < events.len() ==> (#[trigger] events[i]) is Resize,
    ensures
        after_all(s, events).surfaces.dom() == s.surfaces.dom(),
        after_all(s, events).active == s.active,
        after_all(s, events).primary == s.primary,
        forall|k: Seq<char>|
            #[trigger] s.surfaces.contains_key(k) ==> after_all(s, events).surfaces[k] == match last_resize(events, k) {
                Some(z) => z,
                None => s.surfaces[k],
            },
    decreases events.len(),
{
    if events.len() > 0 {
        let prefix = events.drop_last();
        assert forall|i: int| 0 <= i < prefix.len() implies (#[trigger] prefix[i]) is Resize by {
            assert(prefix[i] == events[i]);
        }
        lemma_resize_sequence(s, prefix);
        let t = after_all(s, prefix);
        assert(events.last() == events[events.len() - 1]);
        match events.last() {
            PlaybackEvent::Resize(target, w, h) => {
                if t.surfaces.contains_key(target@) {
                    assert(t.after(events.last()).surfaces.dom() =~= s.surfaces.dom());
                }
            },
            _ => {},
        }
    }
}

/// A switch to a registered surface followed by a redraw renders into that
/// surface, at its size, and into no other.
pub proof fn lemma_switch_then_redraw(s: CoordinatorModel, id: String, idle_active: bool)
    requires
        s.valid(),
        s.surfaces.contains_key(id@),
    ensures
        s.after(PlaybackEvent::SwitchTarget(id)).outcome(PlaybackEvent::Redraw, idle_active) == Ok::<
            Seq<ActionView>,
            CoordError,
        >(seq![ActionView::Render(id@, s.surfaces[id@])]),
{
    let t = s.after(PlaybackEvent::SwitchTarget(id));
    assert(t.failover() =~= Seq::<ActionView>::empty());
    assert(t.failover().push(ActionView::Render(id@, s.surfaces[id@])) =~= seq![
        ActionView::Render(id@, s.surfaces[id@]),
    ]);
}

/// When the surface a switch went to is torn down, the next redraw makes the
/// primary surface active and renders into it.
pub proof fn lemma_redraw_after_teardown(s: CoordinatorModel, id: String, idle_active: bool)
    requires
        s.valid(),
        s.surfaces.contains_key(id@),
        id@ != s.primary,
    ensures
        ({
            let t = s.after(PlaybackEvent::SwitchTarget(id)).retired(id@);
            &&& t.outcome(PlaybackEvent::Redraw, idle_active) == Ok::<Seq<ActionView>, CoordError>(
                seq![
                    ActionView::MakeCurrent(s.primary),
                    ActionView::Render(s.primary, s.surfaces[s.primary]),
                ],
            )
            &&& t.after(PlaybackEvent::Redraw).active == s.primary
        }),
{
    let t = s.after(PlaybackEvent::SwitchTarget(id)).retired(id@);
    assert(t.lost_active());
    assert(t.failover().push(ActionView::Render(s.primary, s.surfaces[s.primary])) =~= seq![
        ActionView::MakeCurrent(s.primary),
        ActionView::Render(s.primary, s.surfaces[s.primary]),
    ]);
}

/// Whatever the state, a clear first sets the engine's pause state to true
/// and ends by clearing the surface that is active afterwards, which is
/// registered.
pub proof fn lemma_clear_pauses(s: CoordinatorModel, idle_active: bool)
    requires
        s.valid(),
    ensures
        ({
            let a = s.outcome(PlaybackEvent::Clear, idle_active)->Ok_0;
            let t = s.after(PlaybackEvent::Clear);
            &&& s.outcome(PlaybackEvent::Clear, idle_active) is Ok
            &&& a[0] == ActionView::Engine(EngineCommand::SetPause(true))
            &&& a.last() == ActionView::ClearSurface(t.active, t.surfaces[t.active])
            &&& t.surfaces.contains_key(t.active)
            &&& forall|i: int| 0 < i < a.len() - 1 ==> a[i] == ActionView::MakeCurrent(t.active)
        }),
{
}

/// Keeps the surface registry and the active render target in step with the
/// intents taken from the coordinator's queue, and decides the drawing and
/// engine work each intent needs.
#[derive(Debug)]
pub struct RenderManager {
    surfaces: SurfaceRegistry,
    active_window: String,
    primary: String,
}

impl View for RenderManager {
    type V = CoordinatorModel;

    closed spec fn view(&self) -> CoordinatorModel {
        CoordinatorModel {
            surfaces: self.surfaces@,
            active: self.active_window@,
            primary: self.primary@,
        }
    }
}

/// Wraps engine commands as actions, in order.
fn engine_actions(commands: Vec<EngineCommand>) -> (r: Vec<Action>)
    ensures
        action_views(r@) == commands@.map_values(|c: EngineCommand| ActionView::Engine(c)),
{
    let ghost all = commands@;
    let mut rest = commands;
    let mut out: Vec<Action> = Vec::new();
    while rest.len() > 0
        invariant
            out@.len() + rest@.len() == all.len(),
            rest@ == all.subrange(out@.len() as int, all.len() as int),
            action_views(out@) == all.subrange(0, out@.len() as int).map_values(
                |c: EngineCommand| ActionView::Engine(c),
            ),
        decreases rest.len(),
    {
        let ghost k = out@.len() as int;
        let ghost before = out@;
        let c = rest.remove(0);
        assert(c == all[k]);
        out.push(Action::Engine(c));
        assert(action_views(out@) =~= action_views(before).push(ActionView::Engine(all[k])));
        assert(all.subrange(0, k + 1).map_values(|c: EngineCommand| ActionView::Engine(c))
            =~= all.subrange(0, k).map_values(|c: EngineCommand| ActionView::Engine(c)).push(
            ActionView::Engine(all[k]),
        ));
        assert(rest@ =~= all.subrange(out@.len() as int, all.len() as int));
    }
    assert(all.subrange(0, all.len() as int) =~= all);
    out
}

impl RenderManager {
    pub closed spec fn wf(&self) -> bool {
        &&& self.surfaces.wf()
        &&& self@.valid()
    }

    /// A coordinator with the primary window's surface alone, active.
    pub fn new(primary: String, size: Size) -> (r: RenderManager)
        ensures
            r.wf(),
            r@.surfaces == map![primary@ => Size::spec_clamped(size.width, size.height)],
            r@.active == primary@,
            r@.primary == primary@,
    {
        let surfaces = SurfaceRegistry::new(
            primary.clone(),
            Size::clamped(size.width, size.height),
        );
        RenderManager { surfaces, active_window: primary.clone(), primary }
    }

    /// A coordinator with the primary window's surface and a secondary
    /// window's surface that shares its context; the primary one is active.
    pub fn new_with_pip(primary: String, primary_size: Size, pip: String, pip_size: Size) -> (r:
        RenderManager)
        ensures
            r.wf(),
            r@.surfaces == map![primary@ => Size::spec_clamped(primary_size.width, primary_size.height)].insert(
                pip@,
                Size::spec_clamped(pip_size.width, pip_size.height),
            ),
            r@.active == primary@,
            r@.primary == primary@,
    {
        let mut r = RenderManager::new(primary, primary_size);
        r.surfaces.insert(pip, Size::clamped(pip_size.width, pip_size.height));
        r
    }

    /// The identifier of the surface that receives frames.
    pub fn active_window(&self) -> (r: &String)
        ensures
            r@ == self@.active,
    {
        &self.active_window
    }

    /// The identifier of the primary window.
    pub fn primary_window(&self) -> (r: &String)
        ensures
            r@ == self@.primary,
    {
        &self.primary
    }

    /// The size of the surface named `id`, if it is registered.
    pub fn surface_size(&self, id: &String) -> (r: Option<Size>)
        requires
            self.wf(),
        ensures
            r == (if self@.surfaces.contains_key(id@) {
                Some(self@.surfaces[id@])
            } else {
                None::<Size>
            }),
    {
        self.surfaces.get(id)
    }

    /// Makes the surface named `id` the render target; refused, with nothing
    /// changed, when no such surface is registered.
    pub fn switch_target_window(&mut self, id: String) -> (r: Result<Action, CoordError>)
        requires
            old(self).wf(),
        ensures
            final(self).wf(),
            final(self)@ == old(self)@.after(PlaybackEvent::SwitchTarget(id)),
            match r {
                Ok(a) => old(self)@.surfaces.contains_key(id@) && a@ == ActionView::MakeCurrent(
                    id@,
                ),
                Err(e) => !old(self)@.surfaces.contains_key(id@) && e == CoordError::MissingTarget(
                    id,
                ),
            },
    {
        if self.surfaces.contains(&id) {
            self.active_window = id.clone();
            Ok(Action::MakeCurrent(id))
        } else {
            Err(CoordError::MissingTarget(id))
        }
    }

    /// The render action for the surface named `id` at its current size, or
    /// `None` when no such surface is registered.
    pub fn render_to_window(&self, id: &String) -> (r: Option<Action>)
        requires
            self.wf(),
        ensures
            match r {
                Some(a) => self@.surfaces.contains_key(id@) && a@ == ActionView::Render(
                    id@,
                    self@.surfaces[id@],
                ),
                None => !self@.surfaces.contains_key(id@),
            },
    {
        match self.surfaces.get(id) {
            Some(size) => Some(Action::Render { id: id.clone(), size }),
            None => None,
        }
    }

    /// Fails over to the primary surface when the active one is gone, and
    /// returns the switch that this needs, if any.
    fn settle_target(&mut self) -> (r: Vec<Action>)
        requires
            old(self).wf(),
        ensures
            final(self).wf(),
            final(self)@ == (CoordinatorModel { active: old(self)@.draw_target(), ..old(self)@ }),
            action_views(r@) == old(self)@.failover(),
    {
        let mut r: Vec<Action> = Vec::new();
        if !self.surfaces.contains(&self.active_window) {
            self.active_window = self.primary.clone();
            r.push(Action::MakeCurrent(self.primary.clone()));
        }
        assert(action_views(r@) =~= old(self)@.failover());
        r
    }

    /// Handles a redraw: renders into the active surface, or, when that
    /// surface has been torn down, makes the primary one active and renders
    /// there.
    pub fn render(&mut self) -> (r: Vec<Action>)
        requires
            old(self).wf(),
        ensures
            final(self).wf(),
            final(self)@ == old(self)@.after(PlaybackEvent::Redraw),
            Ok::<Seq<ActionView>, CoordError>(action_views(r@)) == old(self)@.outcome(
                PlaybackEvent::Redraw,
                false,
            ),
    {
        let mut r = self.settle_target();
        match self.surfaces.get(&self.active_window) {
            Some(size) => {
                r.push(Action::Render { id: self.active_window.clone(), size });
            },
            None => {},
        }
        assert(action_views(r@) =~= old(self)@.failover().push(
            ActionView::Render(old(self)@.draw_target(), old(self)@.surfaces[old(self)@.draw_target()]),
        ));
        r
    }

    /// Handles a clear: pauses the engine, then clears the active surface
    /// (failing over to the primary one as a redraw does) to transparent.
    pub fn clear(&mut self) -> (r: Vec<Action>)
        requires
            old(self).wf(),
        ensures
            final(self).wf(),
            final(self)@ == old(self)@.after(PlaybackEvent::Clear),
            Ok::<Seq<ActionView>, CoordError>(action_views(r@)) == old(self)@.outcome(
                PlaybackEvent::Clear,
                false,
            ),
    {
        let mut r = vec![Action::Engine(EngineCommand::SetPause(true))];
        let mut switch = self.settle_target();
        r.append(&mut switch);
        match self.surfaces.get(&self.active_window) {
            Some(size) => {
                r.push(Action::ClearSurface { id: self.active_window.clone(), size });
            },
            None => {},
        }
        assert(action_views(r@) =~= seq![ActionView::Engine(EngineCommand::SetPause(true))].add(
            old(self)@.failover(),
        ).push(
            ActionView::ClearSurface(
                old(self)@.draw_target(),
                old(self)@.surfaces[old(self)@.draw_target()],
            ),
        ));
        r
    }

    /// Resizes the surface named `id` to `(max(width, 1), max(height, 1))`;
    /// refused, with nothing changed, when no such surface is registered.
    /// Other surfaces, and the active target, are left alone.
    pub fn resize(&mut self, id: String, width: u32, height: u32) -> (r: Result<Action, CoordError>)
        requires
            old(self).wf(),
        ensures
            final(self).wf(),
            final(self)@ == old(self)@.after(PlaybackEvent::Resize(id, width, height)),
            match r {
                Ok(a) => old(self)@.surfaces.contains_key(id@) && a@ == ActionView::ResizeSurface(
                    id@,
                    Size::spec_clamped(width, height),
                ),
                Err(e) => !old(self)@.surfaces.contains_key(id@) && e == CoordError::MissingTarget(
                    id,
                ),
            },
    {
        let size = Size::clamped(width, height);
        if self.surfaces.set_size(&id, size) {
            Ok(Action::ResizeSurface { id, size })
        } else {
            Err(CoordError::MissingTarget(id))
        }
    }

    /// Tears down the surface of a secondary window. The active target is
    /// left as it is: the next redraw or clear fails over to the primary
    /// surface. Refused, with nothing changed, for the primary window and for
    /// an identifier that is not registered.
    pub fn retire_surface(&mut self, id: String) -> (r: Result<(), CoordError>)
        requires
            old(self).wf(),
        ensures
            final(self).wf(),
            match r {
                Ok(()) => {
                    &&& old(self)@.surfaces.contains_key(id@)
                    &&& id@ != old(self)@.primary
                    &&& final(self)@ == old(self)@.retired(id@)
                },
                Err(e) => {
                    &&& final(self)@ == old(self)@
                    &&& if id@ == old(self)@.primary {
                        e == CoordError::PrimarySurface(id)
                    } else {
                        !old(self)@.surfaces.contains_key(id@) && e == CoordError::MissingTarget(id)
                    }
                },
            },
    {
        if id == self.primary {
            return Err(CoordError::PrimarySurface(id));
        }
        if self.surfaces.remove(&id) {
            assert(self@.surfaces =~= old(self)@.surfaces.remove(id@));
            assert(self@ == old(self)@.retired(id@));
            Ok(())
        } else {
            Err(CoordError::MissingTarget(id))
        }
    }

    /// Handles one intent from the queue: redraw, resize, target switch and
    /// clear are the coordinator's own; every other intent becomes engine
    /// commands. `idle_active` is the engine's report, taken just before,
    /// of whether no file is loaded.
    pub fn handle_event(&mut self, event: PlaybackEvent, idle_active: bool) -> (r: Result<
        Vec<Action>,
        CoordError,
    >)
        requires
            old(self).wf(),
        ensures
            final(self).wf(),
            final(self)@ == old(self)@.after(event),
            outcome_view(r) == old(self)@.outcome(event, idle_active),
    {
        let ghost e = event;
        match event {
            PlaybackEvent::Redraw => Ok(self.render()),
            PlaybackEvent::Clear => Ok(self.clear()),
            PlaybackEvent::Resize(id, width, height) => match self.resize(id, width, height) {
                Ok(a) => {
                    let r = vec![a];
                    assert(action_views(r@) =~= seq![r@[0]@]);
                    Ok(r)
                },
                Err(err) => Err(err),
            },
            PlaybackEvent::SwitchTarget(id) => match self.switch_target_window(id) {
                Ok(a) => {
                    let r = vec![a];
                    assert(action_views(r@) =~= seq![r@[0]@]);
                    Ok(r)
                },
                Err(err) => Err(err),
            },
            other => Ok(engine_actions(engine_commands(other, idle_active))),
        }
    }
}

} // verus!
