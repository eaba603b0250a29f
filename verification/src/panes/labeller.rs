use vstd::prelude::*;

verus! {

/// Pixels per inch of the normalised page.
pub const SCALE: u32 = 8;

/// Size of a warped (normalised) image: an 8.5 by 11 inch page at `SCALE` pixels per inch.
pub const WARP_OUTPUT_SIZE: (u32, u32) = (85 * SCALE, 110 * SCALE);

/// Number of corners labelled on each image.
pub const CORNER_COUNT: usize = 4;

/// What a click on an image edits.
#[derive(Debug, PartialEq, Eq, Clone, Copy, Structural)]
pub enum LabelTool {
    Corner,
    BBox,
}

/// Which pair, corner and bounding box the labeller is working on.
pub struct LabelState {
    pub pair_index: usize,
    pub corner_index: usize,
    pub bbox_index: usize,
    pub bbox_dragging: bool,
    pub bbox_white_background: bool,
}

impl Default for LabelState {
    fn default() -> (s: LabelState)
        ensures
            s.pair_index == 0,
            s.corner_index == 0,
            s.bbox_index == 0,
            !s.bbox_dragging,
            s.bbox_white_background,
    {
        LabelState {
            pair_index: 0,
            corner_index: 0,
            bbox_index: 0,
            bbox_dragging: false,
            bbox_white_background: true,
        }
    }
}

/// An axis-aligned box given by two corner points, in image pixel coordinates.
#[derive(Clone, Copy)]
pub struct BBox<P> {
    pub min: P,
    pub max: P,
}

/// The labels of one image: its four page corners and its bounding boxes, each
/// marked with whether it was drawn on a white background.
pub struct Labels<P> {
    pub corners: [P; 4],
    pub bounding_boxes: Vec<(bool, BBox<P>)>,
}

/// The box whose two corners are both `p`.
pub open spec fn point_box<P>(p: P) -> BBox<P> {
    BBox { min: p, max: p }
}

/// `s` lengthened to `n` elements with copies of `fill`; unchanged when it is long enough.
pub open spec fn padded<T>(s: Seq<T>, n: nat, fill: T) -> Seq<T> {
    if n <= s.len() {
        s
    } else {
        s + Seq::new((n - s.len()) as nat, |i: int| fill)
    }
}

/// The boxes after a press at `pos` starts box `index`: the list is padded with empty
/// boxes at `origin` up to that index, and the box restarts at the pressed point.
pub open spec fn boxes_after_press<P>(
    boxes: Seq<(bool, BBox<P>)>,
    index: int,
    white_background: bool,
    pos: P,
    origin: P,
) -> Seq<(bool, BBox<P>)> {
    padded(boxes, (index + 1) as nat, (false, point_box(origin))).update(
        index,
        (white_background, point_box(pos)),
    )
}

/// The boxes after the pointer drags the far corner of box `index` to `pos`.
pub open spec fn boxes_after_drag<P>(boxes: Seq<(bool, BBox<P>)>, index: int, pos: P) -> Seq<
    (bool, BBox<P>),
> {
    boxes.update(index, (boxes[index].0, BBox { min: boxes[index].1.min, max: pos }))
}

/// What a mouse event asks of the caller.
#[derive(Debug, PartialEq, Eq, Clone, Copy, Structural)]
pub enum MouseOutcome {
    /// Nothing more to do.
    Idle,
    /// A corner moved: the image must be warped again.
    Warp,
    /// The drag of the box at this index ended: its corners must be put in order,
    /// and its overlay region updated when it has a white background.
    BoxReleased(usize),
}

impl<P: Copy> Labels<P> {
    /// Labels with every corner at `origin` and no bounding box.
    pub fn new(origin: P) -> (l: Labels<P>)
        ensures
            l.corners@ == seq![origin, origin, origin, origin],
            l.bounding_boxes@.len() == 0,
    {
        Labels { corners: [origin, origin, origin, origin], bounding_boxes: Vec::new() }
    }

    /// The indices, in order, of the bounding boxes drawn on a white background.
    pub fn white_background_indices(&self) -> (ix: Vec<usize>)
        ensures
            forall|k: int| 0 <= k < ix@.len() ==> 0 <= #[trigger] ix@[k] < self.bounding_boxes@.len(),
            forall|k: int| 0 <= k < ix@.len() ==> self.bounding_boxes@[#[trigger] ix@[k] as int].0,
            forall|k: int, l: int| 0 <= k < l < ix@.len() ==> #[trigger] ix@[k] < #[trigger] ix@[l],
            forall|j: int|
                0 <= j < self.bounding_boxes@.len() && #[trigger] self.bounding_boxes@[j].0
                    ==> ix@.contains(j as usize),
    {
        let mut ix: Vec<usize> = Vec::new();
        let n = self.bounding_boxes.len();
        for i in 0..n
            invariant
                n == self.bounding_boxes@.len(),
                forall|k: int| 0 <= k < ix@.len() ==> 0 <= #[trigger] ix@[k] < i,
                forall|k: int| 0 <= k < ix@.len() ==> self.bounding_boxes@[#[trigger] ix@[k] as int].0,
                forall|k: int, l: int| 0 <= k < l < ix@.len() ==> #[trigger] ix@[k] < #[trigger] ix@[l],
                forall|j: int|
                    0 <= j < i && #[trigger] self.bounding_boxes@[j].0 ==> ix@.contains(j as usize),
        {
            let ghost before = ix@;
            if self.bounding_boxes[i].0 {
                ix.push(i);
            }
            assert forall|j: int|
                0 <= j < i + 1 && #[trigger] self.bounding_boxes@[j].0 implies ix@.contains(
                j as usize,
            ) by {
                if j < i {
                    let k = choose|k: int| 0 <= k < before.len() && before[k] == j as usize;
                    assert(ix@[k] == before[k]);
                } else {
                    assert(ix@[ix@.len() - 1] == i);
                }
            }
        }
        ix
    }
}

/// The label state after a mouse event with the given tool.
pub open spec fn state_after_mouse(
    s: LabelState,
    tool: LabelTool,
    pressed: bool,
    released: bool,
    shift: bool,
) -> LabelState {
    match tool {
        LabelTool::Corner => s,
        LabelTool::BBox => {
            let dragging = pressed || s.bbox_dragging;
            LabelState {
                bbox_white_background: if pressed { shift } else { s.bbox_white_background },
                bbox_dragging: dragging && !released,
                ..s
            }
        },
    }
}

/// The bounding boxes after a mouse event with the box tool.
pub open spec fn boxes_after_mouse<P>(
    s: LabelState,
    boxes: Seq<(bool, BBox<P>)>,
    pressed: bool,
    shift: bool,
    pos: P,
    origin: P,
) -> Seq<(bool, BBox<P>)> {
    let after_press = if pressed {
        boxes_after_press(boxes, s.bbox_index as int, shift, pos, origin)
    } else {
        boxes
    };
    if pressed || s.bbox_dragging {
        boxes_after_drag(after_press, s.bbox_index as int, pos)
    } else {
        after_press
    }
}

/// What the caller is asked to do after a mouse event.
pub open spec fn outcome_of_mouse(
    s: LabelState,
    tool: LabelTool,
    clicked: bool,
    pressed: bool,
    released: bool,
) -> MouseOutcome {
    match tool {
        LabelTool::Corner => if clicked {
            MouseOutcome::Warp
        } else {
            MouseOutcome::Idle
        },
        LabelTool::BBox => if (pressed || s.bbox_dragging) && released {
            MouseOutcome::BoxReleased(s.bbox_index)
        } else {
            MouseOutcome::Idle
        },
    }
}

/// Whether a mouse event can be handled: a corner click needs a corner index in
/// range, a press needs room for one more box index, and a drag that did not start
/// in this event needs its box to exist.
pub open spec fn mouse_event_ok<P>(
    s: LabelState,
    boxes: Seq<(bool, BBox<P>)>,
    tool: LabelTool,
    clicked: bool,
    pressed: bool,
) -> bool {
    match tool {
        LabelTool::Corner => clicked ==> s.corner_index < 4,
        LabelTool::BBox => {
            &&& pressed ==> s.bbox_index < usize::MAX
            &&& (!pressed && s.bbox_dragging) ==> s.bbox_index < boxes.len()
        },
    }
}

/// Whether `handle_mouse` can take this event (see `mouse_event_ok`).
pub fn mouse_ok<P>(
    state: &LabelState,
    target: &Labels<P>,
    tool: LabelTool,
    clicked: bool,
    pressed: bool,
) -> (ok: bool)
    ensures
        ok == mouse_event_ok(*state, target.bounding_boxes@, tool, clicked, pressed),
{
    match tool {
        LabelTool::Corner => !clicked || state.corner_index < CORNER_COUNT,
        LabelTool::BBox => {
            (!pressed || state.bbox_index < usize::MAX) && (pressed || !state.bbox_dragging
                || state.bbox_index < target.bounding_boxes.len())
        },
    }
}

/// Applies a mouse event at image point `image_pos` to the labels of the hovered image.
///
/// With the corner tool a click moves the current corner there. With the box tool
/// a press starts the current box there (adding empty boxes at `origin` as needed and
/// taking its background from `shift`), every event while dragging moves the box's far
/// corner to the pointer, and a release ends the drag.
pub fn handle_mouse<P: Copy>(
    state: &mut LabelState,
    target: &mut Labels<P>,
    tool: LabelTool,
    clicked: bool,
    pressed: bool,
    released: bool,
    shift: bool,
    image_pos: P,
    origin: P,
) -> (out: MouseOutcome)
    requires
        mouse_event_ok(*old(state), old(target).bounding_boxes@, tool, clicked, pressed),
    ensures
        *final(state) == state_after_mouse(*old(state), tool, pressed, released, shift),
        out == outcome_of_mouse(*old(state), tool, clicked, pressed, released),
        tool == LabelTool::Corner ==> final(target).bounding_boxes@ == old(target).bounding_boxes@,
        tool == LabelTool::Corner ==> final(target).corners@ == if clicked {
            old(target).corners@.update(old(state).corner_index as int, image_pos)
        } else {
            old(target).corners@
        },
        tool == LabelTool::BBox ==> final(target).corners@ == old(target).corners@,
        tool == LabelTool::BBox ==> final(target).bounding_boxes@ == boxes_after_mouse(
            *old(state),
            old(target).bounding_boxes@,
            pressed,
            shift,
            image_pos,
            origin,
        ),
{
    match tool {
        LabelTool::Corner => {
            if clicked {
                let i = state.corner_index;
                target.corners[i] = image_pos;
                return MouseOutcome::Warp;
            }
            MouseOutcome::Idle
        },
        LabelTool::BBox => {
            let index = state.bbox_index;
            let ghost boxes0 = target.bounding_boxes@;
            if pressed {
                if index >= target.bounding_boxes.len() {
                    let ghost start_len = target.bounding_boxes@.len();
                    while target.bounding_boxes.len() < index + 1
                        invariant
                            index < usize::MAX,
                            target.corners@ == old(target).corners@,
                            start_len == boxes0.len(),
                            start_len <= index,
                            start_len <= target.bounding_boxes@.len() <= index + 1,
                            target.bounding_boxes@ == boxes0 + Seq::new(
                                (target.bounding_boxes@.len() - start_len) as nat,
                                |i: int| (false, point_box(origin)),
                            ),
                        decreases index + 1 - target.bounding_boxes@.len(),
                    {
                        target.bounding_boxes.push((false, BBox { min: origin, max: origin }));
                    }
                    assert(target.bounding_boxes@ =~= padded(
                        boxes0,
                        (index + 1) as nat,
                        (false, point_box(origin)),
                    ));
                }
                state.bbox_white_background = shift;
                let white = state.bbox_white_background;
                target.bounding_boxes.set(index, (white, BBox { min: image_pos, max: image_pos }));
                state.bbox_dragging = true;
                assert(target.bounding_boxes@ =~= boxes_after_press(
                    boxes0,
                    index as int,
                    shift,
                    image_pos,
                    origin,
                ));
            }
            if state.bbox_dragging {
                let (white, bbox) = target.bounding_boxes[index];
                target.bounding_boxes.set(index, (white, BBox { min: bbox.min, max: image_pos }));
                if released {
                    state.bbox_dragging = false;
                    return MouseOutcome::BoxReleased(index);
                }
            }
            MouseOutcome::Idle
        },
    }
}

/// The corner after corner `c`, cycling through the four.
pub open spec fn next_corner(c: int) -> int {
    (c + 1) % 4
}

impl LabelState {
    /// Moves on to the next corner (cycling through the four) or to the next box.
    pub fn advance(&mut self, tool: LabelTool)
        requires
            tool == LabelTool::Corner ==> old(self).corner_index < usize::MAX,
            tool == LabelTool::BBox ==> old(self).bbox_index < usize::MAX,
        ensures
            tool == LabelTool::Corner ==> *final(self) == (LabelState {
                corner_index: next_corner(old(self).corner_index as int) as usize,
                ..*old(self)
            }),
            tool == LabelTool::BBox ==> *final(self) == (LabelState {
                bbox_index: (old(self).bbox_index + 1) as usize,
                ..*old(self)
            }),
    {
        match tool {
            LabelTool::Corner => {
                self.corner_index = (self.corner_index + 1) % 4;
            },
            LabelTool::BBox => {
                self.bbox_index = self.bbox_index + 1;
            },
        }
    }
}


/// Advancing the corner four times from any of the four corners comes back to it,
/// and every step stays among the four corners.
pub proof fn law_corner_cycle(c: int)
    requires
        0 <= c < 4,
    ensures
        0 <= next_corner(c) < 4,
        next_corner(next_corner(next_corner(next_corner(c)))) == c,
{
}

/// Dragging a box: a press at `p` on box `i` followed by a release at `q` leaves box
/// `i` spanning from `p` to `q` with the background chosen at the press, keeps every
/// other existing box, pads the list up to `i` with empty boxes at `origin`, ends the
/// drag and reports box `i` as released. The second event is always admissible.
pub proof fn law_press_then_release<P>(
    s: LabelState,
    boxes: Seq<(bool, BBox<P>)>,
    shift: bool,
    later_shift: bool,
    p: P,
    q: P,
    origin: P,
)
    requires
        mouse_event_ok(s, boxes, LabelTool::BBox, false, true),
    ensures
        ({
            let i = s.bbox_index as int;
            let s1 = state_after_mouse(s, LabelTool::BBox, true, false, shift);
            let b1 = boxes_after_mouse(s, boxes, true, shift, p, origin);
            let s2 = state_after_mouse(s1, LabelTool::BBox, false, true, later_shift);
            let b2 = boxes_after_mouse(s1, b1, false, later_shift, q, origin);
            &&& s1.bbox_dragging
            &&& mouse_event_ok(s1, b1, LabelTool::BBox, false, false)
            &&& outcome_of_mouse(s1, LabelTool::BBox, false, false, true)
                == MouseOutcome::BoxReleased(s.bbox_index)
            &&& !s2.bbox_dragging
            &&& s2.bbox_white_background == shift
            &&& b2.len() == if i < boxes.len() { boxes.len() as int } else { i + 1 }
            &&& b2[i] == (shift, BBox { min: p, max: q })
            &&& forall|j: int| 0 <= j < boxes.len() && j != i ==> #[trigger] b2[j] == boxes[j]
            &&& forall|j: int|
                boxes.len() <= j < b2.len() && j != i ==> #[trigger] b2[j] == (
                    false,
                    point_box(origin),
                )
        }),
{
    let i = s.bbox_index as int;
    let b1 = boxes_after_mouse(s, boxes, true, shift, p, origin);
    let padded_boxes = padded(boxes, (i + 1) as nat, (false, point_box(origin)));
    assert(padded_boxes.len() == if i < boxes.len() { boxes.len() as int } else { i + 1 });
    assert forall|j: int| 0 <= j < boxes.len() implies #[trigger] padded_boxes[j] == boxes[j] by {}
    assert forall|j: int| boxes.len() <= j < padded_boxes.len() implies #[trigger] padded_boxes[j]
        == (false, point_box(origin)) by {}
}

/// A mouse event never moves the current pair, corner or box: only `advance` and the
/// pair selection do. With the corner tool it changes no state at all.
pub proof fn law_mouse_keeps_indices(
    s: LabelState,
    tool: LabelTool,
    pressed: bool,
    released: bool,
    shift: bool,
)
    ensures
        state_after_mouse(s, tool, pressed, released, shift).pair_index == s.pair_index,
        state_after_mouse(s, tool, pressed, released, shift).corner_index == s.corner_index,
        state_after_mouse(s, tool, pressed, released, shift).bbox_index == s.bbox_index,
        tool == LabelTool::Corner ==> state_after_mouse(s, tool, pressed, released, shift) == s,
        tool == LabelTool::BBox && released ==> !state_after_mouse(s, tool, pressed, released, shift).bbox_dragging,
{
}

/// Every mouse event keeps every existing box index valid: the list of boxes never shrinks.
pub proof fn law_boxes_never_shrink<P>(
    s: LabelState,
    boxes: Seq<(bool, BBox<P>)>,
    pressed: bool,
    shift: bool,
    pos: P,
    origin: P,
)
    requires
        mouse_event_ok(s, boxes, LabelTool::BBox, false, pressed),
    ensures
        boxes_after_mouse(s, boxes, pressed, shift, pos, origin).len() >= boxes.len(),
{
}

} // verus!
