//! The decisions of the engine's window loop: what each window event asks
//! of the engine, what follows a frame that could not be drawn, which size
//! the drawing surface takes, which surface format it uses, and where the
//! instances of the scene stand.

use vstd::prelude::*;

verus! {

/// A size in physical pixels.
#[derive(Clone, Copy, Debug, PartialEq, Eq, Structural)]
pub struct SurfaceSize {
    pub width: u32,
    pub height: u32,
}

/// Whether a surface can take `size`: both sides must be non-zero.
pub open spec fn is_drawable(size: SurfaceSize) -> bool {
    size.width > 0 && size.height > 0
}

/// The surface's size after the window asks for `requested` while the
/// surface has size `current`.
pub open spec fn resized_size(current: SurfaceSize, requested: SurfaceSize) -> SurfaceSize {
    if is_drawable(requested) {
        requested
    } else {
        current
    }
}

/// The size of the surface the engine draws to.
pub struct Viewport {
    size: SurfaceSize,
}

impl Viewport {
    /// The surface's size.
    pub closed spec fn spec_size(&self) -> SurfaceSize {
        self.size
    }

    /// A surface of the window's size when the engine starts.
    pub fn new(size: SurfaceSize) -> (viewport: Self)
        ensures
            viewport.spec_size() == size,
    {
        Viewport { size }
    }

    /// The surface's size.
    pub fn size(&self) -> (size: SurfaceSize)
        ensures
            size == self.spec_size(),
    {
        self.size
    }

    /// Takes the window's new size. A size with a zero side is refused and the
    /// surface keeps its size; otherwise the surface takes the new size. The
    /// result tells whether it was taken, that is whether the surface must be
    /// configured again and a frame requested.
    pub fn resize(&mut self, new_size: SurfaceSize) -> (taken: bool)
        ensures
            taken == is_drawable(new_size),
            final(self).spec_size() == resized_size(old(self).spec_size(), new_size),
            taken == (new_size.width > 0 && new_size.height > 0),
            taken ==> final(self).spec_size() == new_size,
            !taken ==> final(self).spec_size() == old(self).spec_size(),
    {
        if new_size.width > 0 && new_size.height > 0 {
            self.size = new_size;
            true
        } else {
            false
        }
    }
}

/// Asking twice for the same size leaves the surface as asking once does.
pub proof fn lemma_resize_idempotent(current: SurfaceSize, requested: SurfaceSize)
    ensures
        resized_size(resized_size(current, requested), requested) == resized_size(
            current,
            requested,
        ),
{
}

/// A refused size leaves the surface as it was, and a taken one is the
/// surface's size whatever size it had before.
pub proof fn lemma_resize_outcome(a: SurfaceSize, b: SurfaceSize, requested: SurfaceSize)
    ensures
        !is_drawable(requested) ==> resized_size(a, requested) == a,
        is_drawable(requested) ==> resized_size(a, requested) == resized_size(b, requested),
{
}

/// An event of the window loop, as the engine sees it.
#[derive(Clone, Copy, Debug, PartialEq, Eq, Structural)]
pub enum LoopEvent {
    /// The loop has handled all pending events.
    AboutToWait,
    /// A key of the engine's window went down (`pressed`) or up; `escape`
    /// tells whether it is the Escape key.
    Keyboard { pressed: bool, escape: bool },
    /// The engine's window was asked to close.
    CloseRequested,
    /// The engine's window now has this size.
    Resized(SurfaceSize),
    /// The engine's window changed its scale factor; this is its inner size.
    ScaleFactorChanged(SurfaceSize),
    /// The engine's window asks for a frame.
    RedrawRequested,
    /// Any other event, and any event of another window.
    Other,
}

/// What the engine does in answer to an event.
#[derive(Clone, Copy, Debug, PartialEq, Eq, Structural)]
pub enum LoopAction {
    /// Ask the window for a frame.
    RequestRedraw,
    /// Hand the key event to the game.
    ForwardKey,
    /// Hand the size to the game, then resize the surface to it.
    Resize(SurfaceSize),
    /// Let the game update, then draw a frame.
    UpdateAndRender,
    /// Leave the loop.
    Exit,
}

/// The actions that answer `event`, in the order they are taken.
pub open spec fn event_actions(event: LoopEvent) -> Seq<LoopAction> {
    match event {
        LoopEvent::AboutToWait => seq![LoopAction::RequestRedraw],
        LoopEvent::Keyboard { pressed, escape } => if pressed && escape {
            seq![LoopAction::ForwardKey, LoopAction::Exit]
        } else {
            seq![LoopAction::ForwardKey]
        },
        LoopEvent::CloseRequested => seq![LoopAction::Exit],
        LoopEvent::Resized(size) => seq![LoopAction::Resize(size)],
        LoopEvent::ScaleFactorChanged(size) => seq![LoopAction::Resize(size)],
        LoopEvent::RedrawRequested => seq![LoopAction::UpdateAndRender],
        LoopEvent::Other => Seq::empty(),
    }
}

/// The actions that answer `event`, in the order the loop takes them.
pub fn handle_event(event: LoopEvent) -> (actions: Vec<LoopAction>)
    ensures
        actions@ == event_actions(event),
        actions@.len() <= 2,
        event is Keyboard ==> actions@[0] == LoopAction::ForwardKey,
        event is Keyboard ==> actions@.len() == (if event->pressed && event->escape {
            2int
        } else {
            1int
        }),
        event is Keyboard && event->pressed && event->escape ==> actions@[1] == LoopAction::Exit,
{
    let mut actions: Vec<LoopAction> = Vec::new();
    match event {
        LoopEvent::AboutToWait => {
            actions.push(LoopAction::RequestRedraw);
        },
        LoopEvent::Keyboard { pressed, escape } => {
            actions.push(LoopAction::ForwardKey);
            if pressed && escape {
                actions.push(LoopAction::Exit);
            }
        },
        LoopEvent::CloseRequested => {
            actions.push(LoopAction::Exit);
        },
        LoopEvent::Resized(size) => {
            actions.push(LoopAction::Resize(size));
        },
        LoopEvent::ScaleFactorChanged(size) => {
            actions.push(LoopAction::Resize(size));
        },
        LoopEvent::RedrawRequested => {
            actions.push(LoopAction::UpdateAndRender);
        },
        LoopEvent::Other => {},
    }
    assert(actions@ =~= event_actions(event));
    actions
}

/// The loop is left on exactly two events: a request to close the window,
/// and a press of Escape; and a key event always reaches the game first.
pub proof fn lemma_exit_events(event: LoopEvent)
    ensures
        event_actions(event).contains(LoopAction::Exit) <==> (event == LoopEvent::CloseRequested
            || event == (LoopEvent::Keyboard { pressed: true, escape: true })),
        event is Keyboard ==> event_actions(event)[0] == LoopAction::ForwardKey,
{
    let actions = event_actions(event);
    if event == LoopEvent::CloseRequested {
        assert(actions[0] == LoopAction::Exit);
    } else if event == (LoopEvent::Keyboard { pressed: true, escape: true }) {
        assert(actions[1] == LoopAction::Exit);
    } else {
        assert(!actions.contains(LoopAction::Exit)) by {
            if actions.contains(LoopAction::Exit) {
                let i = choose|i: int| 0 <= i < actions.len() && actions[i] == LoopAction::Exit;
                assert(actions[i] == LoopAction::Exit);
            }
        }
    }
}

/// How drawing a frame ended.
#[derive(Clone, Copy, Debug, PartialEq, Eq, Structural)]
pub enum RenderOutcome {
    /// The frame was drawn and shown.
    Presented,
    /// The surface was lost.
    SurfaceLost,
    /// The device ran out of memory.
    OutOfMemory,
    /// Any other failure to get a frame.
    OtherFailure,
}

/// What the loop does after drawing a frame.
#[derive(Clone, Copy, Debug, PartialEq, Eq, Structural)]
pub enum RenderFollowUp {
    /// Nothing more.
    Continue,
    /// Resize to this size: hand it to the game, then configure the surface again.
    Resize(SurfaceSize),
    /// Leave the loop.
    Exit,
    /// Report the failure and go on.
    Report,
}

/// What follows a frame that ended with `outcome`, on a surface of size `current`.
pub open spec fn render_follow_up(outcome: RenderOutcome, current: SurfaceSize) -> RenderFollowUp {
    match outcome {
        RenderOutcome::Presented => RenderFollowUp::Continue,
        RenderOutcome::SurfaceLost => RenderFollowUp::Resize(current),
        RenderOutcome::OutOfMemory => RenderFollowUp::Exit,
        RenderOutcome::OtherFailure => RenderFollowUp::Report,
    }
}

/// What follows a frame that ended with `outcome`: a lost surface is
/// configured again at the viewport's size, running out of memory ends the
/// loop, and any other failure is reported.
pub fn handle_render_outcome(outcome: RenderOutcome, viewport: &Viewport) -> (follow_up: RenderFollowUp)
    ensures
        follow_up == render_follow_up(outcome, viewport.spec_size()),
        outcome == RenderOutcome::Presented ==> follow_up == RenderFollowUp::Continue,
        outcome == RenderOutcome::SurfaceLost ==> follow_up == RenderFollowUp::Resize(
            viewport.spec_size(),
        ),
        outcome == RenderOutcome::OutOfMemory ==> follow_up == RenderFollowUp::Exit,
        outcome == RenderOutcome::OtherFailure ==> follow_up == RenderFollowUp::Report,
{
    match outcome {
        RenderOutcome::Presented => RenderFollowUp::Continue,
        RenderOutcome::SurfaceLost => RenderFollowUp::Resize(viewport.size()),
        RenderOutcome::OutOfMemory => RenderFollowUp::Exit,
        RenderOutcome::OtherFailure => RenderFollowUp::Report,
    }
}

/// The surface format to use, given for each format the surface supports
/// whether it is sRGB: the first sRGB one, or the first one when none is.
pub fn choose_surface_format(is_srgb: &Vec<bool>) -> (index: usize)
    requires
        is_srgb@.len() > 0,
    ensures
        index < is_srgb@.len(),
        forall|j: int| 0 <= j < index ==> !is_srgb@[j],
        is_srgb@[index as int] || (index == 0 && forall|j: int|
            0 <= j < is_srgb@.len() ==> !is_srgb@[j]),
{
    let mut i: usize = 0;
    while i < is_srgb.len()
        invariant
            0 <= i <= is_srgb@.len(),
            forall|j: int| 0 <= j < i ==> !is_srgb@[j],
        decreases is_srgb@.len() - i,
    {
        if is_srgb[i] {
            return i;
        }
        i += 1;
    }
    0
}

/// The number of instances in each row and column of the scene's grid.
pub const NUM_INSTANCES_PER_ROW: u32 = 10;

/// An instance of the scene's grid, by its offset from the grid's centre in
/// whole units along x and z; `rotated` tells whether it is turned about its
/// offset (every instance but the one at the centre).
#[derive(Clone, Copy, Debug, PartialEq, Eq, Structural)]
pub struct GridInstance {
    pub x: i32,
    pub z: i32,
    pub rotated: bool,
}

/// The `k`th instance of the grid: rows run along x, one row for each z.
pub open spec fn grid_instance(k: int) -> GridInstance {
    let n = NUM_INSTANCES_PER_ROW as int;
    let x = k % n - n / 2;
    let z = k / n - n / 2;
    GridInstance { x: x as i32, z: z as i32, rotated: x != 0 || z != 0 }
}

/// All instances of the grid, z after z and within a row x after x, each
/// offset by half a row so that the grid is centred.
pub fn instance_grid() -> (grid: Vec<GridInstance>)
    ensures
        grid@.len() == NUM_INSTANCES_PER_ROW * NUM_INSTANCES_PER_ROW,
        forall|k: int| 0 <= k < grid@.len() ==> #[trigger] grid@[k] == grid_instance(k),
{
    let n: u32 = NUM_INSTANCES_PER_ROW;
    let half: i32 = (NUM_INSTANCES_PER_ROW / 2) as i32;
    let mut grid: Vec<GridInstance> = Vec::new();
    let mut z: u32 = 0;
    while z < n
        invariant
            n == NUM_INSTANCES_PER_ROW,
            half == NUM_INSTANCES_PER_ROW / 2,
            z <= n,
            grid@.len() == z * n,
            forall|k: int| 0 <= k < grid@.len() ==> #[trigger] grid@[k] == grid_instance(k),
        decreases n - z,
    {
        let mut x: u32 = 0;
        while x < n
            invariant
                n == NUM_INSTANCES_PER_ROW,
                half == NUM_INSTANCES_PER_ROW / 2,
                z < n,
                x <= n,
                grid@.len() == z * n + x,
                forall|k: int| 0 <= k < grid@.len() ==> #[trigger] grid@[k] == grid_instance(k),
            decreases n - x,
        {
            let dx: i32 = x as i32 - half;
            let dz: i32 = z as i32 - half;
            let ghost k = grid@.len() as int;
            assert(k % 10 == x && k / 10 == z) by (nonlinear_arith)
                requires
                    k == z * 10 + x,
                    0 <= x < 10,
            ;
            grid.push(GridInstance { x: dx, z: dz, rotated: dx != 0 || dz != 0 });
            x += 1;
        }
        z += 1;
    }
    grid
}

} // verus!

verus! {

/// Every instance of the grid but the centre one is turned, and the offsets
/// run from minus half a row to one less than half a row on both axes.
pub proof fn lemma_grid_shape(k: int)
    requires
        0 <= k < NUM_INSTANCES_PER_ROW * NUM_INSTANCES_PER_ROW,
    ensures
        grid_instance(k).x == k % 10 - 5,
        grid_instance(k).z == k / 10 - 5,
        !grid_instance(k).rotated <==> k == 55,
        -5 <= grid_instance(k).x < 5,
        -5 <= grid_instance(k).z < 5,
{
}

/// Two different places of the grid hold instances at different offsets.
pub proof fn lemma_grid_distinct(j: int, k: int)
    requires
        0 <= j < NUM_INSTANCES_PER_ROW * NUM_INSTANCES_PER_ROW,
        0 <= k < NUM_INSTANCES_PER_ROW * NUM_INSTANCES_PER_ROW,
        j != k,
    ensures
        grid_instance(j).x != grid_instance(k).x || grid_instance(j).z != grid_instance(k).z,
{
}

} // verus!

verus! {

/// A size is refused exactly when one of its sides is zero, and a taken
/// size becomes the surface's size as it is, whatever the surface had.
pub proof fn lemma_resize_takes_exactly_nonzero_sizes(current: SurfaceSize, requested: SurfaceSize)
    ensures
        is_drawable(requested) <==> (requested.width > 0 && requested.height > 0),
        requested.width > 0 && requested.height > 0 ==> resized_size(current, requested)
            == requested,
        requested.width == 0 || requested.height == 0 ==> resized_size(current, requested)
            == current,
{
}

/// A key event hands the key to the game exactly once, as the first action,
/// and is followed by leaving the loop only for a press of Escape; any other
/// event hands no key to the game.
pub proof fn lemma_key_forwarded_once(event: LoopEvent)
    ensures
        event is Keyboard ==> {
            &&& event_actions(event)[0] == LoopAction::ForwardKey
            &&& event_actions(event).len() == (if event->pressed && event->escape {
                2int
            } else {
                1int
            })
            &&& event->pressed && event->escape ==> event_actions(event)[1] == LoopAction::Exit
        },
        event_actions(event).filter(|a: LoopAction| a == LoopAction::ForwardKey).len() == (
        if event is Keyboard {
            1int
        } else {
            0int
        }),
{
    let actions = event_actions(event);
    let f = |a: LoopAction| a == LoopAction::ForwardKey;
    reveal_with_fuel(Seq::filter, 3);
    assert(actions.len() <= 2);
    if actions.len() == 2 {
        assert(actions.drop_last().drop_last() =~= Seq::<LoopAction>::empty());
        assert(actions.drop_last() =~= seq![actions[0]]);
    } else if actions.len() == 1 {
        assert(actions.drop_last() =~= Seq::<LoopAction>::empty());
    }
}

/// Every size event resizes to the size it carries, and a frame answers
/// only in the ways its outcome calls for: a lost surface is configured
/// again at the surface's own size, whatever that size is.
pub proof fn lemma_sizes_carried_through(size: SurfaceSize, current: SurfaceSize)
    ensures
        event_actions(LoopEvent::Resized(size)) == seq![LoopAction::Resize(size)],
        event_actions(LoopEvent::ScaleFactorChanged(size)) == seq![LoopAction::Resize(size)],
        render_follow_up(RenderOutcome::SurfaceLost, current) == RenderFollowUp::Resize(current),
        render_follow_up(RenderOutcome::Presented, current) == RenderFollowUp::Continue,
        render_follow_up(RenderOutcome::OutOfMemory, current) == RenderFollowUp::Exit,
        render_follow_up(RenderOutcome::OtherFailure, current) == RenderFollowUp::Report,
{
}

} // verus!
