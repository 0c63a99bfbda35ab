use vstd::prelude::*;

use crate::actions::{
    Action, KeyState, MouseActionButton, MouseActionButtonState, MouseActionKind, MousePointKind,
    Point,
};
use crate::settings::Settings;

verus! {

pub const WM_KEYDOWN: u32 = 0x0100;

pub const WM_KEYUP: u32 = 0x0101;

pub const WM_SYSKEYDOWN: u32 = 0x0104;

pub const WM_SYSKEYUP: u32 = 0x0105;

pub const WM_MOUSEMOVE: u32 = 0x0200;

pub const WM_LBUTTONDOWN: u32 = 0x0201;

pub const WM_LBUTTONUP: u32 = 0x0202;

pub const WM_RBUTTONDOWN: u32 = 0x0204;

pub const WM_RBUTTONUP: u32 = 0x0205;

pub const WM_MBUTTONDOWN: u32 = 0x0207;

pub const WM_MBUTTONUP: u32 = 0x0208;

pub const WM_MOUSEWHEEL: u32 = 0x020A;

/// A key going down or up, `time` milliseconds after recording began.
#[derive(Clone, Copy, Debug, PartialEq, Eq, Structural)]
pub struct KeyboardEvent {
    pub key_code: i32,
    pub down: bool,
    pub time: u32,
}

/// A mouse event as the low-level hook reports it: the window message, the
/// cursor position, the message data (the wheel delta sits in its high word),
/// and the time in milliseconds after recording began.
#[derive(Clone, Copy, Debug, PartialEq, Eq, Structural)]
pub struct MouseEvent {
    pub message: u32,
    pub point: Point,
    pub mouse_data: u32,
    pub time: u32,
}

/// One event of either stream.
pub enum CapturedEvent {
    Key(KeyboardEvent),
    Mouse(MouseEvent),
}

pub open spec fn keys_sorted(s: Seq<KeyboardEvent>) -> bool {
    forall|a: int, b: int| 0 <= a < b < s.len() ==> s[a].time <= s[b].time
}

pub open spec fn mice_sorted(s: Seq<MouseEvent>) -> bool {
    forall|a: int, b: int| 0 <= a < b < s.len() ==> s[a].time <= s[b].time
}

/// The two streams merged by time; on equal times the keyboard event comes first.
pub open spec fn merge_events(kb: Seq<KeyboardEvent>, ms: Seq<MouseEvent>) -> Seq<CapturedEvent>
    decreases kb.len() + ms.len(),
{
    if kb.len() == 0 && ms.len() == 0 {
        Seq::empty()
    } else if kb.len() > 0 && (ms.len() == 0 || kb[0].time <= ms[0].time) {
        seq![CapturedEvent::Key(kb[0])] + merge_events(kb.drop_first(), ms)
    } else {
        seq![CapturedEvent::Mouse(ms[0])] + merge_events(kb, ms.drop_first())
    }
}

pub open spec fn event_time(e: CapturedEvent) -> u32 {
    match e {
        CapturedEvent::Key(k) => k.time,
        CapturedEvent::Mouse(m) => m.time,
    }
}

/// Where a mouse event happened, as an offset from the previous mouse sample
/// or as an absolute position.
pub open spec fn recorded_position(p: Point, prev: Point, offsets: bool) -> MousePointKind {
    if offsets {
        MousePointKind::By(Point { x: p.x.wrapping_sub(prev.x), y: p.y.wrapping_sub(prev.y) })
    } else {
        MousePointKind::To(p)
    }
}

pub open spec fn button_of(message: u32) -> i32 {
    if message == WM_LBUTTONDOWN || message == WM_LBUTTONUP {
        1
    } else if message == WM_RBUTTONDOWN || message == WM_RBUTTONUP {
        2
    } else if message == WM_MBUTTONDOWN || message == WM_MBUTTONUP {
        4
    } else {
        message as i32
    }
}

pub open spec fn is_button_down(message: u32) -> bool {
    message == WM_LBUTTONDOWN || message == WM_RBUTTONDOWN || message == WM_MBUTTONDOWN
}

/// The mouse action that a hook event stands for, at the given position.
pub open spec fn mouse_kind_of(e: MouseEvent, pos: MousePointKind) -> MouseActionKind {
    if e.message == WM_MOUSEMOVE {
        MouseActionKind::Moved(pos)
    } else if e.message == WM_MOUSEWHEEL {
        MouseActionKind::Wheel((e.mouse_data as i32) >> 16u32, Some(pos))
    } else {
        MouseActionKind::Button(
            MouseActionButton {
                point: Some(pos),
                button: button_of(e.message),
                state: if is_button_down(e.message) {
                    MouseActionButtonState::Pressed
                } else {
                    MouseActionButtonState::Released
                },
            },
        )
    }
}

pub open spec fn gap(t: u32, now: u32) -> Seq<Action> {
    if t != now {
        seq![Action::Delay((t - now) as u32)]
    } else {
        Seq::empty()
    }
}

/// Whether a mouse event becomes an action: everything does, except moves
/// when mouse movement is not recorded.
pub open spec fn emitted(m: MouseEvent, record_mouse_movement: bool) -> bool {
    record_mouse_movement || m.message != WM_MOUSEMOVE
}

/// The actions for a merged event list: each event that becomes an action is
/// preceded by a `Delay` for the time since the action before it (`now`), when
/// that time is not zero. `prev` is the position of the previous mouse sample:
/// it follows every mouse event, also the moves that are not recorded, and an
/// offset is taken from it.
#[verifier::opaque]
pub open spec fn replay(
    events: Seq<CapturedEvent>,
    now: u32,
    prev: Point,
    offsets: bool,
    record_mouse_movement: bool,
) -> Seq<Action>
    decreases events.len(),
{
    if events.len() == 0 {
        Seq::empty()
    } else {
        let t = event_time(events[0]);
        let rest = events.drop_first();
        match events[0] {
            CapturedEvent::Key(k) => gap(t, now) + seq![
                Action::Keyboard(k.key_code, if k.down { KeyState::Down } else { KeyState::Up }),
            ] + replay(rest, t, prev, offsets, record_mouse_movement),
            CapturedEvent::Mouse(m) => if emitted(m, record_mouse_movement) {
                gap(t, now) + seq![
                    Action::Mouse(mouse_kind_of(m, recorded_position(m.point, prev, offsets))),
                ] + replay(rest, t, m.point, offsets, record_mouse_movement)
            } else {
                replay(rest, now, m.point, offsets, record_mouse_movement)
            },
        }
    }
}

/// Whether a keyboard hook message is a key going down (`Some(true)`) or up
/// (`Some(false)`).
pub fn key_transition(message: u32) -> (r: Option<bool>)
    ensures
        r == (if message == WM_KEYDOWN || message == WM_SYSKEYDOWN {
            Some(true)
        } else if message == WM_KEYUP || message == WM_SYSKEYUP {
            Some(false)
        } else {
            None::<bool>
        }),
{
    if message == WM_KEYDOWN || message == WM_SYSKEYDOWN {
        Some(true)
    } else if message == WM_KEYUP || message == WM_SYSKEYUP {
        Some(false)
    } else {
        None
    }
}

fn mouse_kind(e: &MouseEvent, pos: MousePointKind) -> (r: MouseActionKind)
    ensures
        r == mouse_kind_of(*e, pos),
{
    if e.message == WM_MOUSEMOVE {
        MouseActionKind::Moved(pos)
    } else if e.message == WM_MOUSEWHEEL {
        MouseActionKind::Wheel((e.mouse_data as i32) >> 16u32, Some(pos))
    } else {
        let m = e.message;
        let button: i32 = if m == WM_LBUTTONDOWN || m == WM_LBUTTONUP {
            1
        } else if m == WM_RBUTTONDOWN || m == WM_RBUTTONUP {
            2
        } else if m == WM_MBUTTONDOWN || m == WM_MBUTTONUP {
            4
        } else {
            m as i32
        };
        let state = if m == WM_LBUTTONDOWN || m == WM_RBUTTONDOWN || m == WM_MBUTTONDOWN {
            MouseActionButtonState::Pressed
        } else {
            MouseActionButtonState::Released
        };
        MouseActionKind::Button(MouseActionButton { point: Some(pos), button, state })
    }
}

fn position(p: Point, prev: Point, offsets: bool) -> (r: MousePointKind)
    ensures
        r == recorded_position(p, prev, offsets),
{
    if offsets {
        MousePointKind::By(Point { x: p.x.wrapping_sub(prev.x), y: p.y.wrapping_sub(prev.y) })
    } else {
        MousePointKind::To(p)
    }
}

proof fn lemma_add_assoc(a: Seq<Action>, b: Seq<Action>, c: Seq<Action>)
    ensures
        (a + b) + c == a + (b + c),
{
    assert((a + b) + c =~= a + (b + c));
}

proof fn lemma_replay_key(
    rk: Seq<KeyboardEvent>,
    rm: Seq<MouseEvent>,
    now: u32,
    prev: Point,
    offsets: bool,
    moves: bool,
)
    requires
        rk.len() > 0,
        rm.len() == 0 || rk[0].time <= rm[0].time,
    ensures
        replay(merge_events(rk, rm), now, prev, offsets, moves) == gap(rk[0].time, now) + seq![
            Action::Keyboard(rk[0].key_code, if rk[0].down { KeyState::Down } else { KeyState::Up }),
        ] + replay(merge_events(rk.drop_first(), rm), rk[0].time, prev, offsets, moves),
{
    reveal(replay);
    let m = merge_events(rk, rm);
    assert(m == seq![CapturedEvent::Key(rk[0])] + merge_events(rk.drop_first(), rm));
    assert(m[0] == CapturedEvent::Key(rk[0]));
    assert(m.drop_first() =~= merge_events(rk.drop_first(), rm));
}

proof fn lemma_replay_mouse(
    rk: Seq<KeyboardEvent>,
    rm: Seq<MouseEvent>,
    now: u32,
    prev: Point,
    offsets: bool,
    moves: bool,
)
    requires
        rm.len() > 0,
        !(rk.len() > 0 && rk[0].time <= rm[0].time),
    ensures
        replay(merge_events(rk, rm), now, prev, offsets, moves) == (if emitted(rm[0], moves) {
            gap(rm[0].time, now) + seq![
                Action::Mouse(mouse_kind_of(rm[0], recorded_position(rm[0].point, prev, offsets))),
            ] + replay(merge_events(rk, rm.drop_first()), rm[0].time, rm[0].point, offsets, moves)
        } else {
            replay(merge_events(rk, rm.drop_first()), now, rm[0].point, offsets, moves)
        }),
{
    reveal(replay);
    let m = merge_events(rk, rm);
    assert(m == seq![CapturedEvent::Mouse(rm[0])] + merge_events(rk, rm.drop_first()));
    assert(m[0] == CapturedEvent::Mouse(rm[0]));
    assert(m.drop_first() =~= merge_events(rk, rm.drop_first()));
}

/// The actions that a recording made: a `Delay` for the time from
/// `initial_start_time` to `start_time` when it is not zero, then the two
/// streams merged by time, each event that becomes an action preceded by a
/// `Delay` for the time since the action before it when that is not zero.
/// Mouse moves become actions only when the settings record them; offsets are
/// taken from the previous mouse sample, recorded or not.
pub fn combine_into_action_list(
    keyboard_actions: &Vec<KeyboardEvent>,
    mouse_actions: &Vec<MouseEvent>,
    initial_start_time: u32,
    start_time: u32,
    settings: &Settings,
    initial_position: Point,
) -> (r: Vec<Action>)
    requires
        keys_sorted(keyboard_actions@),
        mice_sorted(mouse_actions@),
        initial_start_time <= start_time,
        forall|k: int| 0 <= k < keyboard_actions@.len() ==> start_time <= #[trigger] keyboard_actions@[k].time,
        forall|k: int|
            0 <= k < mouse_actions@.len() && emitted(mouse_actions@[k], settings.record_mouse_movement)
                ==> start_time <= #[trigger] mouse_actions@[k].time,
    ensures
        r@ == gap(start_time, initial_start_time) + replay(
            merge_events(keyboard_actions@, mouse_actions@),
            start_time,
            initial_position,
            settings.record_mouse_offsets,
            settings.record_mouse_movement,
        ),
{
    let ghost kb = keyboard_actions@;
    let ghost ms = mouse_actions@;
    let offsets = settings.record_mouse_offsets;
    let moves = settings.record_mouse_movement;
    let mut actions: Vec<Action> = Vec::new();
    if start_time - initial_start_time > 0 {
        actions.push(Action::Delay(start_time - initial_start_time));
    }
    let mut current_time = start_time;
    let mut previous_position = initial_position;
    let mut keyboard_index: usize = 0;
    let mut mouse_index: usize = 0;
    assert(kb.subrange(0, kb.len() as int) =~= kb);
    assert(ms.subrange(0, ms.len() as int) =~= ms);
    while keyboard_index < keyboard_actions.len() || mouse_index < mouse_actions.len()
        invariant
            kb == keyboard_actions@,
            ms == mouse_actions@,
            offsets == settings.record_mouse_offsets,
            moves == settings.record_mouse_movement,
            keys_sorted(kb),
            mice_sorted(ms),
            keyboard_index <= kb.len(),
            mouse_index <= ms.len(),
            forall|k: int| keyboard_index <= k < kb.len() ==> current_time <= #[trigger] kb[k].time,
            forall|k: int|
                mouse_index <= k < ms.len() && emitted(ms[k], moves) ==> current_time
                    <= #[trigger] ms[k].time,
            actions@ + replay(
                merge_events(
                    kb.subrange(keyboard_index as int, kb.len() as int),
                    ms.subrange(mouse_index as int, ms.len() as int),
                ),
                current_time,
                previous_position,
                offsets,
                moves,
            ) == gap(start_time, initial_start_time) + replay(
                merge_events(kb, ms),
                start_time,
                initial_position,
                offsets,
                moves,
            ),
        decreases kb.len() - keyboard_index + ms.len() - mouse_index,
    {
        let ghost rk = kb.subrange(keyboard_index as int, kb.len() as int);
        let ghost rm = ms.subrange(mouse_index as int, ms.len() as int);
        let ghost before = actions@;
        let ghost before_time = current_time;
        let ghost before_prev = previous_position;
        let ghost rest_before = replay(merge_events(rk, rm), current_time, previous_position, offsets, moves);
        let take_key = keyboard_index < keyboard_actions.len() && (mouse_index
            >= mouse_actions.len() || keyboard_actions[keyboard_index].time
            <= mouse_actions[mouse_index].time);
        if take_key {
            let e = keyboard_actions[keyboard_index];
            if e.time - current_time != 0 {
                actions.push(Action::Delay(e.time - current_time));
            }
            let state = if e.down {
                KeyState::Down
            } else {
                KeyState::Up
            };
            actions.push(Action::Keyboard(e.key_code, state));
            proof {
                assert(rk.drop_first() =~= kb.subrange(keyboard_index + 1, kb.len() as int));
                lemma_replay_key(rk, rm, before_time, previous_position, offsets, moves);
                let delta = gap(e.time, before_time) + seq![Action::Keyboard(e.key_code, state)];
                assert(actions@ =~= before + delta);
                let rest = replay(merge_events(rk.drop_first(), rm), e.time, previous_position, offsets, moves);
                assert(rest_before == delta + rest);
                lemma_add_assoc(before, delta, rest);
                assert forall|k: int|
                    mouse_index <= k < ms.len() && emitted(ms[k], moves) implies e.time
                    <= #[trigger] ms[k].time by {
                    if k > mouse_index {
                        assert(ms[mouse_index as int].time <= ms[k].time);
                    }
                }
            }
            current_time = e.time;
            keyboard_index = keyboard_index + 1;
        } else {
            let e = mouse_actions[mouse_index];
            let shown = moves || e.message != WM_MOUSEMOVE;
            if shown {
                if e.time - current_time != 0 {
                    actions.push(Action::Delay(e.time - current_time));
                }
                let pos = position(e.point, previous_position, offsets);
                let kind = mouse_kind(&e, pos);
                actions.push(Action::Mouse(kind));
                proof {
                    assert(actions@ =~= before + gap(e.time, before_time) + seq![Action::Mouse(kind)]);
                    assert forall|k: int| keyboard_index <= k < kb.len() implies e.time
                        <= #[trigger] kb[k].time by {
                        if k > keyboard_index {
                            assert(kb[keyboard_index as int].time <= kb[k].time);
                        }
                    }
                }
                current_time = e.time;
            }
            proof {
                assert(rm.drop_first() =~= ms.subrange(mouse_index + 1, ms.len() as int));
                lemma_replay_mouse(rk, rm, before_time, before_prev, offsets, moves);
                let rest = replay(merge_events(rk, rm.drop_first()), current_time, e.point, offsets, moves);
                if shown {
                    let delta = actions@.subrange(before.len() as int, actions@.len() as int);
                    assert(actions@ =~= before + delta);
                    assert(delta =~= gap(e.time, before_time) + seq![
                        Action::Mouse(mouse_kind_of(e, recorded_position(e.point, before_prev, offsets))),
                    ]);
                    assert(rest_before == delta + rest);
                    lemma_add_assoc(before, delta, rest);
                } else {
                    assert(actions@ == before);
                }
                assert forall|k: int|
                    mouse_index + 1 <= k < ms.len() && emitted(ms[k], moves) implies current_time
                    <= #[trigger] ms[k].time by {
                    if shown {
                        assert(ms[mouse_index as int].time <= ms[k].time);
                    }
                }
            }
            previous_position = e.point;
            mouse_index = mouse_index + 1;
        }
    }
    proof {
        assert(kb.subrange(keyboard_index as int, kb.len() as int) =~= Seq::<KeyboardEvent>::empty());
        assert(ms.subrange(mouse_index as int, ms.len() as int) =~= Seq::<MouseEvent>::empty());
        reveal(replay);
        assert(actions@ + Seq::<Action>::empty() =~= actions@);
    }
    actions
}

/// The keyboard events without the last two, which are the stop chord that
/// ended the recording.
pub open spec fn without_stop_chord(kb: Seq<KeyboardEvent>) -> Seq<KeyboardEvent> {
    kb.subrange(0, kb.len() - 2)
}

/// The index of the first mouse event from `i` on that becomes an action.
pub open spec fn first_emitted(ms: Seq<MouseEvent>, record_mouse_movement: bool, i: int) -> Option<
    int,
>
    decreases ms.len() - i,
{
    if i < 0 || i >= ms.len() {
        None
    } else if emitted(ms[i], record_mouse_movement) {
        Some(i)
    } else {
        first_emitted(ms, record_mouse_movement, i + 1)
    }
}

/// The time of the first event of either stream that becomes an action.
pub open spec fn first_time(kb: Seq<KeyboardEvent>, ms: Seq<MouseEvent>, record_mouse_movement: bool) -> u32 {
    match first_emitted(ms, record_mouse_movement, 0) {
        Some(j) => if kb.len() > 0 && kb[0].time < ms[j].time {
            kb[0].time
        } else {
            ms[j].time
        },
        None => kb[0].time,
    }
}

/// The macro that a recording yields.
pub open spec fn captured_actions(
    kb: Seq<KeyboardEvent>,
    ms: Seq<MouseEvent>,
    initial_position: Point,
    record_mouse_movement: bool,
    offsets: bool,
) -> Seq<Action> {
    if kb.len() < 2 {
        Seq::empty()
    } else {
        let k = without_stop_chord(kb);
        if k.len() == 0 && first_emitted(ms, record_mouse_movement, 0) is None {
            Seq::empty()
        } else {
            let start = first_time(k, ms, record_mouse_movement);
            gap(start, 0) + replay(
                merge_events(k, ms),
                start,
                initial_position,
                offsets,
                record_mouse_movement,
            )
        }
    }
}

fn find_first_emitted(mouse: &Vec<MouseEvent>, record_mouse_movement: bool) -> (r: Option<usize>)
    ensures
        r matches Some(j) ==> first_emitted(mouse@, record_mouse_movement, 0) == Some(j as int) && j
            < mouse@.len(),
        r is None ==> first_emitted(mouse@, record_mouse_movement, 0) is None,
        r is None ==> forall|k: int|
            0 <= k < mouse@.len() ==> !#[trigger] emitted(mouse@[k], record_mouse_movement),
        r matches Some(j) ==> forall|k: int|
            0 <= k < j ==> !#[trigger] emitted(mouse@[k], record_mouse_movement),
{
    let mut i: usize = 0;
    while i < mouse.len()
        invariant
            i <= mouse@.len(),
            first_emitted(mouse@, record_mouse_movement, 0) == first_emitted(
                mouse@,
                record_mouse_movement,
                i as int,
            ),
            forall|k: int| 0 <= k < i ==> !#[trigger] emitted(mouse@[k], record_mouse_movement),
        decreases mouse@.len() - i,
    {
        if record_mouse_movement || mouse[i].message != WM_MOUSEMOVE {
            return Some(i);
        }
        i = i + 1;
    }
    None
}

/// Turns what the hooks captured into a macro. The last two keyboard events
/// are the stop chord and are dropped; with fewer than two there is nothing to
/// keep. Mouse moves become actions only when the settings record them, but
/// every mouse sample counts as the previous position for the next offset.
/// The macro starts with a `Delay` up to the first event that becomes an
/// action.
pub fn actions_from_capture(
    keyboard: &Vec<KeyboardEvent>,
    mouse: &Vec<MouseEvent>,
    initial_position: Point,
    settings: &Settings,
) -> (r: Vec<Action>)
    requires
        keys_sorted(keyboard@),
        mice_sorted(mouse@),
    ensures
        r@ == captured_actions(
            keyboard@,
            mouse@,
            initial_position,
            settings.record_mouse_movement,
            settings.record_mouse_offsets,
        ),
{
    if keyboard.len() < 2 {
        return Vec::new();
    }
    let mut kb: Vec<KeyboardEvent> = Vec::new();
    let n = keyboard.len() - 2;
    let mut i: usize = 0;
    while i < n
        invariant
            n == keyboard@.len() - 2,
            i <= n,
            kb@ == keyboard@.subrange(0, i as int),
        decreases n - i,
    {
        kb.push(keyboard[i]);
        assert(kb@ =~= keyboard@.subrange(0, i + 1));
        i = i + 1;
    }
    let moves = settings.record_mouse_movement;
    let first = find_first_emitted(mouse, moves);
    if kb.len() == 0 && first.is_none() {
        return Vec::new();
    }
    let start_time = match first {
        Some(j) => if kb.len() > 0 && kb[0].time < mouse[j].time {
            kb[0].time
        } else {
            mouse[j].time
        },
        None => kb[0].time,
    };
    assert(keys_sorted(kb@));
    assert forall|k: int| 0 <= k < kb@.len() implies start_time <= #[trigger] kb@[k].time by {
        if k > 0 {
            assert(kb@[0].time <= kb@[k].time);
        }
    }
    assert forall|k: int|
        0 <= k < mouse@.len() && emitted(mouse@[k], moves) implies start_time
        <= #[trigger] mouse@[k].time by {
        if let Some(j) = first {
            if k > j {
                assert(mouse@[j as int].time <= mouse@[k].time);
            }
        }
    }
    combine_into_action_list(&kb, mouse, 0, start_time, settings, initial_position)
}

proof fn lemma_merge_bounded_below(kb: Seq<KeyboardEvent>, ms: Seq<MouseEvent>, t: u32)
    requires
        forall|k: int| 0 <= k < kb.len() ==> t <= #[trigger] kb[k].time,
        forall|k: int| 0 <= k < ms.len() ==> t <= #[trigger] ms[k].time,
    ensures
        merge_events(kb, ms).len() == kb.len() + ms.len(),
        forall|k: int|
            0 <= k < merge_events(kb, ms).len() ==> t <= #[trigger] event_time(
                merge_events(kb, ms)[k],
            ),
    decreases kb.len() + ms.len(),
{
    let m = merge_events(kb, ms);
    if kb.len() == 0 && ms.len() == 0 {
    } else if kb.len() > 0 && (ms.len() == 0 || kb[0].time <= ms[0].time) {
        let rest = kb.drop_first();
        lemma_merge_bounded_below(rest, ms, t);
        assert forall|k: int| 0 <= k < m.len() implies t <= #[trigger] event_time(m[k]) by {
            if k > 0 {
                assert(m[k] == merge_events(rest, ms)[k - 1]);
            }
        }
    } else {
        let rest = ms.drop_first();
        lemma_merge_bounded_below(kb, rest, t);
        assert forall|k: int| 0 <= k < m.len() implies t <= #[trigger] event_time(m[k]) by {
            if k > 0 {
                assert(m[k] == merge_events(kb, rest)[k - 1]);
            }
        }
    }
}

/// Merging keeps time order: when both streams are in time order, the merged
/// list holds as many events as both together and is in time order too.
pub proof fn lemma_merge_in_time_order(kb: Seq<KeyboardEvent>, ms: Seq<MouseEvent>)
    requires
        keys_sorted(kb),
        mice_sorted(ms),
    ensures
        merge_events(kb, ms).len() == kb.len() + ms.len(),
        forall|a: int, b: int|
            0 <= a < b < merge_events(kb, ms).len() ==> event_time(merge_events(kb, ms)[a])
                <= event_time(merge_events(kb, ms)[b]),
    decreases kb.len() + ms.len(),
{
    let m = merge_events(kb, ms);
    if kb.len() == 0 && ms.len() == 0 {
    } else if kb.len() > 0 && (ms.len() == 0 || kb[0].time <= ms[0].time) {
        let rest = kb.drop_first();
        let t = kb[0].time;
        lemma_merge_in_time_order(rest, ms);
        assert forall|k: int| 0 <= k < rest.len() implies t <= #[trigger] rest[k].time by {
            assert(rest[k] == kb[k + 1]);
        }
        assert forall|k: int| 0 <= k < ms.len() implies t <= #[trigger] ms[k].time by {
            if k > 0 {
                assert(ms[0].time <= ms[k].time);
            }
        }
        lemma_merge_bounded_below(rest, ms, t);
        assert forall|a: int, b: int| 0 <= a < b < m.len() implies event_time(m[a]) <= event_time(
            m[b],
        ) by {
            assert(m[b] == merge_events(rest, ms)[b - 1]);
            if a > 0 {
                assert(m[a] == merge_events(rest, ms)[a - 1]);
            }
        }
    } else {
        let rest = ms.drop_first();
        let t = ms[0].time;
        lemma_merge_in_time_order(kb, rest);
        assert forall|k: int| 0 <= k < rest.len() implies t <= #[trigger] rest[k].time by {
            assert(rest[k] == ms[k + 1]);
        }
        assert forall|k: int| 0 <= k < kb.len() implies t <= #[trigger] kb[k].time by {
            if k > 0 {
                assert(kb[0].time <= kb[k].time);
            }
        }
        lemma_merge_bounded_below(kb, rest, t);
        assert forall|a: int, b: int| 0 <= a < b < m.len() implies event_time(m[a]) <= event_time(
            m[b],
        ) by {
            assert(m[b] == merge_events(kb, rest)[b - 1]);
            if a > 0 {
                assert(m[a] == merge_events(kb, rest)[a - 1]);
            }
        }
    }
}

/// The keyboard events of a merged list, in their order there.
pub open spec fn keys_of(events: Seq<CapturedEvent>) -> Seq<KeyboardEvent>
    decreases events.len(),
{
    if events.len() == 0 {
        Seq::empty()
    } else {
        match events[0] {
            CapturedEvent::Key(k) => seq![k] + keys_of(events.drop_first()),
            CapturedEvent::Mouse(_) => keys_of(events.drop_first()),
        }
    }
}

/// The mouse events of a merged list, in their order there.
pub open spec fn mice_of(events: Seq<CapturedEvent>) -> Seq<MouseEvent>
    decreases events.len(),
{
    if events.len() == 0 {
        Seq::empty()
    } else {
        match events[0] {
            CapturedEvent::Key(_) => mice_of(events.drop_first()),
            CapturedEvent::Mouse(m) => seq![m] + mice_of(events.drop_first()),
        }
    }
}

/// Merging interleaves the two streams: the keyboard events of the merged
/// list are exactly the keyboard stream, and its mouse events exactly the
/// mouse stream, each once and in its own order.
pub proof fn lemma_merge_keeps_each_stream(kb: Seq<KeyboardEvent>, ms: Seq<MouseEvent>)
    ensures
        keys_of(merge_events(kb, ms)) == kb,
        mice_of(merge_events(kb, ms)) == ms,
    decreases kb.len() + ms.len(),
{
    let m = merge_events(kb, ms);
    if kb.len() == 0 && ms.len() == 0 {
        assert(kb =~= Seq::<KeyboardEvent>::empty());
        assert(ms =~= Seq::<MouseEvent>::empty());
    } else if kb.len() > 0 && (ms.len() == 0 || kb[0].time <= ms[0].time) {
        lemma_merge_keeps_each_stream(kb.drop_first(), ms);
        assert(m[0] == CapturedEvent::Key(kb[0]));
        assert(m.drop_first() =~= merge_events(kb.drop_first(), ms));
        assert(kb =~= seq![kb[0]] + kb.drop_first());
    } else {
        lemma_merge_keeps_each_stream(kb, ms.drop_first());
        assert(m[0] == CapturedEvent::Mouse(ms[0]));
        assert(m.drop_first() =~= merge_events(kb, ms.drop_first()));
        assert(ms =~= seq![ms[0]] + ms.drop_first());
    }
}

/// The total of the `Delay`s in an action list, in milliseconds.
pub open spec fn elapsed(actions: Seq<Action>) -> int
    decreases actions.len(),
{
    if actions.len() == 0 {
        0
    } else {
        (match actions[0] {
            Action::Delay(d) => d as int,
            _ => 0,
        }) + elapsed(actions.drop_first())
    }
}

/// Whether a captured event becomes an action.
pub open spec fn event_emitted(e: CapturedEvent, record_mouse_movement: bool) -> bool {
    match e {
        CapturedEvent::Key(_) => true,
        CapturedEvent::Mouse(m) => emitted(m, record_mouse_movement),
    }
}

proof fn lemma_elapsed_add(a: Seq<Action>, b: Seq<Action>)
    ensures
        elapsed(a + b) == elapsed(a) + elapsed(b),
    decreases a.len(),
{
    if a.len() == 0 {
        assert(a + b =~= b);
    } else {
        lemma_elapsed_add(a.drop_first(), b);
        assert((a + b).drop_first() =~= a.drop_first() + b);
        assert((a + b)[0] == a[0]);
    }
}

proof fn lemma_elapsed_gap(t: u32, now: u32)
    requires
        now <= t,
    ensures
        elapsed(gap(t, now)) == t - now,
{
    reveal_with_fuel(elapsed, 2);
    if t != now {
        assert(gap(t, now).drop_first() =~= Seq::<Action>::empty());
    }
}

/// In the actions for a time-ordered event list, the actions up to the one of
/// event `i` come first, end with that event's own action, and their delays add
/// up to the time from `now` to the event.
proof fn lemma_replay_timing(
    events: Seq<CapturedEvent>,
    now: u32,
    prev: Point,
    offsets: bool,
    moves: bool,
    i: int,
)
    requires
        0 <= i < events.len(),
        event_emitted(events[i], moves),
        forall|a: int, b: int|
            0 <= a < b < events.len() ==> event_time(events[a]) <= event_time(events[b]),
        forall|a: int| 0 <= a < events.len() ==> now <= #[trigger] event_time(events[a]),
    ensures
        ({
            let all = replay(events, now, prev, offsets, moves);
            let upto = replay(events.take(i + 1), now, prev, offsets, moves);
            &&& 0 < upto.len() <= all.len()
            &&& all.take(upto.len() as int) == upto
            &&& !(upto.last() is Delay)
            &&& now + elapsed(upto) == event_time(events[i])
        }),
    decreases i,
{
    reveal(replay);
    let e = events[0];
    let t = event_time(e);
    let rest = events.drop_first();
    let part = events.take(i + 1);
    assert(part[0] == e);
    assert(part.drop_first() =~= rest.take(i));
    let all = replay(events, now, prev, offsets, moves);
    let upto = replay(part, now, prev, offsets, moves);
    let next_prev = match e {
        CapturedEvent::Key(_) => prev,
        CapturedEvent::Mouse(m) => m.point,
    };
    assert forall|a: int, b: int| 0 <= a < b < rest.len() implies event_time(rest[a]) <= event_time(
        rest[b],
    ) by {
        assert(rest[a] == events[a + 1] && rest[b] == events[b + 1]);
    }
    if event_emitted(e, moves) {
        let act = match e {
            CapturedEvent::Key(k) => Action::Keyboard(k.key_code, if k.down { KeyState::Down } else { KeyState::Up }),
            CapturedEvent::Mouse(m) => Action::Mouse(mouse_kind_of(m, recorded_position(m.point, prev, offsets))),
        };
        let h = gap(t, now) + seq![act];
        assert(all == h + replay(rest, t, next_prev, offsets, moves));
        assert(upto == h + replay(rest.take(i), t, next_prev, offsets, moves));
        lemma_elapsed_gap(t, now);
        if i == 0 {
            assert(rest.take(0) =~= Seq::<CapturedEvent>::empty());
            assert(upto =~= h);
            assert(elapsed(seq![act]) == 0) by {
                reveal_with_fuel(elapsed, 2);
                assert(seq![act].drop_first() =~= Seq::<Action>::empty());
            }
            lemma_elapsed_add(gap(t, now), seq![act]);
            assert(all.take(upto.len() as int) =~= upto);
        } else {
            assert forall|a: int| 0 <= a < rest.len() implies t <= #[trigger] event_time(rest[a]) by {
                assert(rest[a] == events[a + 1]);
            }
            lemma_replay_timing(rest, t, next_prev, offsets, moves, i - 1);
            assert(rest[i - 1] == events[i]);
            let sub = replay(rest.take(i), t, next_prev, offsets, moves);
            lemma_elapsed_add(h, sub);
            assert(elapsed(seq![act]) == 0) by {
                reveal_with_fuel(elapsed, 2);
                assert(seq![act].drop_first() =~= Seq::<Action>::empty());
            }
            lemma_elapsed_add(gap(t, now), seq![act]);
            assert(upto.last() == sub.last());
            assert(all.take(upto.len() as int) =~= upto);
        }
    } else {
        assert(i > 0);
        assert(all == replay(rest, now, next_prev, offsets, moves));
        assert(upto == replay(rest.take(i), now, next_prev, offsets, moves));
        assert forall|a: int| 0 <= a < rest.len() implies now <= #[trigger] event_time(rest[a]) by {
            assert(rest[a] == events[a + 1]);
        }
        lemma_replay_timing(rest, now, next_prev, offsets, moves, i - 1);
        assert(rest[i - 1] == events[i]);
    }
}

/// The delays of a recording add up to each event's time: for every event of
/// the merged streams that becomes an action, the actions up to and including
/// its own come first in the result, and `initial_start_time` plus their
/// delays is the event's time.
pub proof fn lemma_delays_add_up(
    kb: Seq<KeyboardEvent>,
    ms: Seq<MouseEvent>,
    initial_start_time: u32,
    start_time: u32,
    initial_position: Point,
    offsets: bool,
    moves: bool,
    i: int,
)
    requires
        keys_sorted(kb),
        mice_sorted(ms),
        initial_start_time <= start_time,
        forall|k: int| 0 <= k < kb.len() ==> start_time <= #[trigger] kb[k].time,
        forall|k: int| 0 <= k < ms.len() ==> start_time <= #[trigger] ms[k].time,
        0 <= i < merge_events(kb, ms).len(),
        event_emitted(merge_events(kb, ms)[i], moves),
    ensures
        ({
            let events = merge_events(kb, ms);
            let result = gap(start_time, initial_start_time) + replay(
                events,
                start_time,
                initial_position,
                offsets,
                moves,
            );
            let upto = gap(start_time, initial_start_time) + replay(
                events.take(i + 1),
                start_time,
                initial_position,
                offsets,
                moves,
            );
            &&& upto.len() <= result.len()
            &&& result.take(upto.len() as int) == upto
            &&& !(upto.last() is Delay)
            &&& initial_start_time + elapsed(upto) == event_time(events[i])
        }),
{
    let events = merge_events(kb, ms);
    lemma_merge_in_time_order(kb, ms);
    lemma_merge_bounded_below(kb, ms, start_time);
    lemma_replay_timing(events, start_time, initial_position, offsets, moves, i);
    let g = gap(start_time, initial_start_time);
    let all = replay(events, start_time, initial_position, offsets, moves);
    let part = replay(events.take(i + 1), start_time, initial_position, offsets, moves);
    lemma_elapsed_gap(start_time, initial_start_time);
    lemma_elapsed_add(g, part);
    assert((g + all).take((g + part).len() as int) =~= g + part);
    assert((g + part).last() == part.last());
}

} // verus!
