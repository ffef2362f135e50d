use vstd::prelude::*;

pub mod clock;
pub mod runtime;
pub mod shell;

use crate::wr_core::{CrateBoundary, CrateEntryPoint, entry_card};

verus! {

/// The entry point of the platform crate: a subsystem, not integration-only.
pub fn init_entrypoint() -> (r: CrateEntryPoint)
    ensures
        entry_card(r, "wr_platform"@, CrateBoundary::Subsystem, false),
{
    CrateEntryPoint::new("wr_platform", CrateBoundary::Subsystem, false)
}

/// What a player can ask the game to do.
#[derive(Debug, Clone, Copy, PartialEq, Eq, PartialOrd, Ord, Structural)]
pub enum EngineAction {
    MoveForward,
    MoveBackward,
    MoveLeft,
    MoveRight,
    Jump,
    Dash,
    LightAttack,
    HeavyAttack,
    Parry,
    ToggleDeveloperOverlay,
}

/// The position of an action in declaration order, which is its order.
pub open spec fn action_index(a: EngineAction) -> int {
    match a {
        EngineAction::MoveForward => 0,
        EngineAction::MoveBackward => 1,
        EngineAction::MoveLeft => 2,
        EngineAction::MoveRight => 3,
        EngineAction::Jump => 4,
        EngineAction::Dash => 5,
        EngineAction::LightAttack => 6,
        EngineAction::HeavyAttack => 7,
        EngineAction::Parry => 8,
        EngineAction::ToggleDeveloperOverlay => 9,
    }
}

/// The action at a position of the declaration order.
pub open spec fn action_at(k: int) -> EngineAction {
    if k == 0 {
        EngineAction::MoveForward
    } else if k == 1 {
        EngineAction::MoveBackward
    } else if k == 2 {
        EngineAction::MoveLeft
    } else if k == 3 {
        EngineAction::MoveRight
    } else if k == 4 {
        EngineAction::Jump
    } else if k == 5 {
        EngineAction::Dash
    } else if k == 6 {
        EngineAction::LightAttack
    } else if k == 7 {
        EngineAction::HeavyAttack
    } else if k == 8 {
        EngineAction::Parry
    } else {
        EngineAction::ToggleDeveloperOverlay
    }
}

/// The stable name of an action.
pub open spec fn action_str(a: EngineAction) -> Seq<char> {
    match a {
        EngineAction::MoveForward => "move_forward"@,
        EngineAction::MoveBackward => "move_backward"@,
        EngineAction::MoveLeft => "move_left"@,
        EngineAction::MoveRight => "move_right"@,
        EngineAction::Jump => "jump"@,
        EngineAction::Dash => "dash"@,
        EngineAction::LightAttack => "light_attack"@,
        EngineAction::HeavyAttack => "heavy_attack"@,
        EngineAction::Parry => "parry"@,
        EngineAction::ToggleDeveloperOverlay => "toggle_developer_overlay"@,
    }
}

impl EngineAction {
    /// The stable name of the action.
    pub fn as_str(self) -> (r: &'static str)
        ensures
            r@ == action_str(self),
    {
        match self {
            EngineAction::MoveForward => "move_forward",
            EngineAction::MoveBackward => "move_backward",
            EngineAction::MoveLeft => "move_left",
            EngineAction::MoveRight => "move_right",
            EngineAction::Jump => "jump",
            EngineAction::Dash => "dash",
            EngineAction::LightAttack => "light_attack",
            EngineAction::HeavyAttack => "heavy_attack",
            EngineAction::Parry => "parry",
            EngineAction::ToggleDeveloperOverlay => "toggle_developer_overlay",
        }
    }

    fn index(self) -> (r: usize)
        ensures
            r == action_index(self),
    {
        match self {
            EngineAction::MoveForward => 0,
            EngineAction::MoveBackward => 1,
            EngineAction::MoveLeft => 2,
            EngineAction::MoveRight => 3,
            EngineAction::Jump => 4,
            EngineAction::Dash => 5,
            EngineAction::LightAttack => 6,
            EngineAction::HeavyAttack => 7,
            EngineAction::Parry => 8,
            EngineAction::ToggleDeveloperOverlay => 9,
        }
    }

    fn from_index(k: usize) -> (r: Self)
        requires
            k < 10,
        ensures
            r == action_at(k as int),
            action_index(r) == k,
    {
        if k == 0 {
            EngineAction::MoveForward
        } else if k == 1 {
            EngineAction::MoveBackward
        } else if k == 2 {
            EngineAction::MoveLeft
        } else if k == 3 {
            EngineAction::MoveRight
        } else if k == 4 {
            EngineAction::Jump
        } else if k == 5 {
            EngineAction::Dash
        } else if k == 6 {
            EngineAction::LightAttack
        } else if k == 7 {
            EngineAction::HeavyAttack
        } else if k == 8 {
            EngineAction::Parry
        } else {
            EngineAction::ToggleDeveloperOverlay
        }
    }
}

pub proof fn lemma_action_index(a: EngineAction)
    ensures
        0 <= action_index(a) < 10,
        action_at(action_index(a)) == a,
{
}

/// Whether an input went down or came up.
#[derive(Debug, Clone, Copy, PartialEq, Eq, PartialOrd, Ord, Structural)]
pub enum ActionState {
    Pressed,
    Released,
}

/// The keyboard keys the game reads.
#[derive(Debug, Clone, Copy, PartialEq, Eq, PartialOrd, Ord, Structural)]
pub enum KeyboardControl {
    KeyW,
    KeyA,
    KeyS,
    KeyD,
    Space,
    ShiftLeft,
    KeyF,
    F1,
}

/// The mouse buttons the game reads.
#[derive(Debug, Clone, Copy, PartialEq, Eq, PartialOrd, Ord, Structural)]
pub enum MouseControl {
    Left,
    Right,
    Middle,
}

/// The gamepad buttons the game reads.
#[derive(Debug, Clone, Copy, PartialEq, Eq, PartialOrd, Ord, Structural)]
pub enum GamepadControl {
    South,
    East,
    West,
    North,
    LeftShoulder,
    RightShoulder,
}

/// One physical input.
#[derive(Debug, Clone, Copy, PartialEq, Eq, PartialOrd, Ord, Structural)]
pub enum RawInput {
    Keyboard(KeyboardControl),
    Mouse(MouseControl),
    Gamepad(GamepadControl),
}

/// The number of physical inputs.
pub const RAW_INPUT_COUNT: usize = 17;

/// The position of an input in the order of `RawInput` (keyboard, then mouse, then gamepad,
/// each in declaration order).
pub open spec fn input_index(i: RawInput) -> int {
    match i {
        RawInput::Keyboard(k) => match k {
            KeyboardControl::KeyW => 0,
            KeyboardControl::KeyA => 1,
            KeyboardControl::KeyS => 2,
            KeyboardControl::KeyD => 3,
            KeyboardControl::Space => 4,
            KeyboardControl::ShiftLeft => 5,
            KeyboardControl::KeyF => 6,
            KeyboardControl::F1 => 7,
        },
        RawInput::Mouse(m) => match m {
            MouseControl::Left => 8,
            MouseControl::Right => 9,
            MouseControl::Middle => 10,
        },
        RawInput::Gamepad(g) => match g {
            GamepadControl::South => 11,
            GamepadControl::East => 12,
            GamepadControl::West => 13,
            GamepadControl::North => 14,
            GamepadControl::LeftShoulder => 15,
            GamepadControl::RightShoulder => 16,
        },
    }
}

/// The input at a position of the order of `RawInput`.
pub open spec fn input_at(k: int) -> RawInput {
    if k == 0 {
        RawInput::Keyboard(KeyboardControl::KeyW)
    } else if k == 1 {
        RawInput::Keyboard(KeyboardControl::KeyA)
    } else if k == 2 {
        RawInput::Keyboard(KeyboardControl::KeyS)
    } else if k == 3 {
        RawInput::Keyboard(KeyboardControl::KeyD)
    } else if k == 4 {
        RawInput::Keyboard(KeyboardControl::Space)
    } else if k == 5 {
        RawInput::Keyboard(KeyboardControl::ShiftLeft)
    } else if k == 6 {
        RawInput::Keyboard(KeyboardControl::KeyF)
    } else if k == 7 {
        RawInput::Keyboard(KeyboardControl::F1)
    } else if k == 8 {
        RawInput::Mouse(MouseControl::Left)
    } else if k == 9 {
        RawInput::Mouse(MouseControl::Right)
    } else if k == 10 {
        RawInput::Mouse(MouseControl::Middle)
    } else if k == 11 {
        RawInput::Gamepad(GamepadControl::South)
    } else if k == 12 {
        RawInput::Gamepad(GamepadControl::East)
    } else if k == 13 {
        RawInput::Gamepad(GamepadControl::West)
    } else if k == 14 {
        RawInput::Gamepad(GamepadControl::North)
    } else if k == 15 {
        RawInput::Gamepad(GamepadControl::LeftShoulder)
    } else {
        RawInput::Gamepad(GamepadControl::RightShoulder)
    }
}

pub proof fn lemma_input_index(i: RawInput)
    ensures
        0 <= input_index(i) < 17,
        input_at(input_index(i)) == i,
{
}

impl RawInput {
    fn index(self) -> (r: usize)
        ensures
            r == input_index(self),
    {
        match self {
            RawInput::Keyboard(k) => match k {
                KeyboardControl::KeyW => 0,
                KeyboardControl::KeyA => 1,
                KeyboardControl::KeyS => 2,
                KeyboardControl::KeyD => 3,
                KeyboardControl::Space => 4,
                KeyboardControl::ShiftLeft => 5,
                KeyboardControl::KeyF => 6,
                KeyboardControl::F1 => 7,
            },
            RawInput::Mouse(m) => match m {
                MouseControl::Left => 8,
                MouseControl::Right => 9,
                MouseControl::Middle => 10,
            },
            RawInput::Gamepad(g) => match g {
                GamepadControl::South => 11,
                GamepadControl::East => 12,
                GamepadControl::West => 13,
                GamepadControl::North => 14,
                GamepadControl::LeftShoulder => 15,
                GamepadControl::RightShoulder => 16,
            },
        }
    }

    fn from_index(k: usize) -> (r: Self)
        requires
            k < 17,
        ensures
            r == input_at(k as int),
            input_index(r) == k,
    {
        if k == 0 {
            RawInput::Keyboard(KeyboardControl::KeyW)
        } else if k == 1 {
            RawInput::Keyboard(KeyboardControl::KeyA)
        } else if k == 2 {
            RawInput::Keyboard(KeyboardControl::KeyS)
        } else if k == 3 {
            RawInput::Keyboard(KeyboardControl::KeyD)
        } else if k == 4 {
            RawInput::Keyboard(KeyboardControl::Space)
        } else if k == 5 {
            RawInput::Keyboard(KeyboardControl::ShiftLeft)
        } else if k == 6 {
            RawInput::Keyboard(KeyboardControl::KeyF)
        } else if k == 7 {
            RawInput::Keyboard(KeyboardControl::F1)
        } else if k == 8 {
            RawInput::Mouse(MouseControl::Left)
        } else if k == 9 {
            RawInput::Mouse(MouseControl::Right)
        } else if k == 10 {
            RawInput::Mouse(MouseControl::Middle)
        } else if k == 11 {
            RawInput::Gamepad(GamepadControl::South)
        } else if k == 12 {
            RawInput::Gamepad(GamepadControl::East)
        } else if k == 13 {
            RawInput::Gamepad(GamepadControl::West)
        } else if k == 14 {
            RawInput::Gamepad(GamepadControl::North)
        } else if k == 15 {
            RawInput::Gamepad(GamepadControl::LeftShoulder)
        } else {
            RawInput::Gamepad(GamepadControl::RightShoulder)
        }
    }
}

/// A physical input going down or up.
#[derive(Debug, Clone, Copy, PartialEq, Eq, Structural)]
pub struct InputSignal {
    pub input: RawInput,
    pub state: ActionState,
}

/// An action starting or stopping, with the input that caused it.
#[derive(Debug, Clone, Copy, PartialEq, Eq, Structural)]
pub struct ActionEvent {
    pub action: EngineAction,
    pub state: ActionState,
    pub input: RawInput,
}

/// `m[k]`, if `k` has an entry.
pub open spec fn map_get<K, V>(m: Map<K, V>, k: K) -> Option<V> {
    if m.dom().contains(k) {
        Some(m[k])
    } else {
        None
    }
}

/// The bindings that a new action map has.
pub open spec fn default_binding(i: RawInput) -> Option<EngineAction> {
    match i {
        RawInput::Keyboard(KeyboardControl::KeyW) => Some(EngineAction::MoveForward),
        RawInput::Keyboard(KeyboardControl::KeyS) => Some(EngineAction::MoveBackward),
        RawInput::Keyboard(KeyboardControl::KeyA) => Some(EngineAction::MoveLeft),
        RawInput::Keyboard(KeyboardControl::KeyD) => Some(EngineAction::MoveRight),
        RawInput::Keyboard(KeyboardControl::Space) => Some(EngineAction::Jump),
        RawInput::Keyboard(KeyboardControl::ShiftLeft) => Some(EngineAction::Dash),
        RawInput::Keyboard(KeyboardControl::KeyF) => Some(EngineAction::Parry),
        RawInput::Keyboard(KeyboardControl::F1) => Some(EngineAction::ToggleDeveloperOverlay),
        RawInput::Mouse(MouseControl::Left) => Some(EngineAction::LightAttack),
        RawInput::Mouse(MouseControl::Right) => Some(EngineAction::HeavyAttack),
        RawInput::Gamepad(GamepadControl::South) => Some(EngineAction::Jump),
        RawInput::Gamepad(GamepadControl::East) => Some(EngineAction::Dash),
        RawInput::Gamepad(GamepadControl::RightShoulder) => Some(EngineAction::LightAttack),
        RawInput::Gamepad(GamepadControl::LeftShoulder) => Some(EngineAction::HeavyAttack),
        RawInput::Gamepad(GamepadControl::West) => Some(EngineAction::Parry),
        _ => None,
    }
}

/// The map that `default_binding` describes.
pub open spec fn default_bindings() -> Map<RawInput, EngineAction> {
    Map::new(|i: RawInput| default_binding(i).is_some(), |i: RawInput| default_binding(i).unwrap())
}

/// The bindings of the first `n` inputs in input order, as (input, action) pairs.
pub open spec fn bindings_upto(m: Map<RawInput, EngineAction>, n: int) -> Seq<(RawInput, EngineAction)>
    decreases n,
{
    if n <= 0 {
        seq![]
    } else {
        let prev = bindings_upto(m, n - 1);
        let k = input_at(n - 1);
        if m.dom().contains(k) {
            prev.push((k, m[k]))
        } else {
            prev
        }
    }
}

/// The default controls, action by action: an input triggers an action exactly when it is one
/// of that action's documented inputs. W, S, A, D move forward, backward, left and right (so the
/// four keys lead to four different movements); Space and the gamepad's South button jump; left
/// Shift and East dash; F and West parry; F1 toggles the developer overlay; the left mouse
/// button and the right shoulder make a light attack, the right mouse button and the left
/// shoulder a heavy one; the middle mouse button and North trigger nothing.
pub proof fn lemma_default_controls(i: RawInput)
    ensures
        (map_get(default_bindings(), i) == Some(EngineAction::MoveForward)) <==> i
            == RawInput::Keyboard(KeyboardControl::KeyW),
        (map_get(default_bindings(), i) == Some(EngineAction::MoveBackward)) <==> i
            == RawInput::Keyboard(KeyboardControl::KeyS),
        (map_get(default_bindings(), i) == Some(EngineAction::MoveLeft)) <==> i
            == RawInput::Keyboard(KeyboardControl::KeyA),
        (map_get(default_bindings(), i) == Some(EngineAction::MoveRight)) <==> i
            == RawInput::Keyboard(KeyboardControl::KeyD),
        (map_get(default_bindings(), i) == Some(EngineAction::Jump)) <==> (i == RawInput::Keyboard(
            KeyboardControl::Space,
        ) || i == RawInput::Gamepad(GamepadControl::South)),
        (map_get(default_bindings(), i) == Some(EngineAction::Dash)) <==> (i == RawInput::Keyboard(
            KeyboardControl::ShiftLeft,
        ) || i == RawInput::Gamepad(GamepadControl::East)),
        (map_get(default_bindings(), i) == Some(EngineAction::Parry)) <==> (i == RawInput::Keyboard(
            KeyboardControl::KeyF,
        ) || i == RawInput::Gamepad(GamepadControl::West)),
        (map_get(default_bindings(), i) == Some(EngineAction::ToggleDeveloperOverlay)) <==> i
            == RawInput::Keyboard(KeyboardControl::F1),
        (map_get(default_bindings(), i) == Some(EngineAction::LightAttack)) <==> (i
            == RawInput::Mouse(MouseControl::Left) || i == RawInput::Gamepad(
            GamepadControl::RightShoulder,
        )),
        (map_get(default_bindings(), i) == Some(EngineAction::HeavyAttack)) <==> (i
            == RawInput::Mouse(MouseControl::Right) || i == RawInput::Gamepad(
            GamepadControl::LeftShoulder,
        )),
        map_get(default_bindings(), i) is None <==> (i == RawInput::Mouse(MouseControl::Middle)
            || i == RawInput::Gamepad(GamepadControl::North)),
{
}

/// A copy of `v` with the element at `k` replaced by `x`.
fn replaced<T: Copy>(v: &Vec<T>, k: usize, x: T) -> (r: Vec<T>)
    requires
        k < v@.len(),
    ensures
        r@ == v@.update(k as int, x),
{
    let mut r: Vec<T> = Vec::new();
    let mut i: usize = 0;
    while i < v.len()
        invariant
            i <= v@.len(),
            k < v@.len(),
            r@ == v@.update(k as int, x).subrange(0, i as int),
        decreases v@.len() - i,
    {
        if i == k {
            r.push(x);
        } else {
            r.push(v[i]);
        }
        i = i + 1;
        assert(r@ =~= v@.update(k as int, x).subrange(0, i as int));
    }
    assert(r@ =~= v@.update(k as int, x));
    r
}

/// Which action each physical input triggers.
#[derive(Debug, PartialEq, Eq)]
pub struct ActionMap {
    slots: Vec<Option<EngineAction>>,
}

impl View for ActionMap {
    type V = Map<RawInput, EngineAction>;

    closed spec fn view(&self) -> Map<RawInput, EngineAction> {
        Map::new(
            |i: RawInput| self.slots@[input_index(i)].is_some(),
            |i: RawInput| self.slots@[input_index(i)].unwrap(),
        )
    }
}

impl Default for ActionMap {
    fn default() -> (r: Self)
        ensures
            r@ == default_bindings(),
    {
        let mut slots: Vec<Option<EngineAction>> = Vec::new();
        let mut k: usize = 0;
        while k < RAW_INPUT_COUNT
            invariant
                k <= 17,
                slots@.len() == k,
                forall|j: int| 0 <= j < k ==> #[trigger] slots@[j] == default_binding(input_at(j)),
            decreases 17 - k,
        {
            let input = RawInput::from_index(k);
            let b = match input {
                RawInput::Keyboard(KeyboardControl::KeyW) => Some(EngineAction::MoveForward),
                RawInput::Keyboard(KeyboardControl::KeyS) => Some(EngineAction::MoveBackward),
                RawInput::Keyboard(KeyboardControl::KeyA) => Some(EngineAction::MoveLeft),
                RawInput::Keyboard(KeyboardControl::KeyD) => Some(EngineAction::MoveRight),
                RawInput::Keyboard(KeyboardControl::Space) => Some(EngineAction::Jump),
                RawInput::Keyboard(KeyboardControl::ShiftLeft) => Some(EngineAction::Dash),
                RawInput::Keyboard(KeyboardControl::KeyF) => Some(EngineAction::Parry),
                RawInput::Keyboard(KeyboardControl::F1) => Some(
                    EngineAction::ToggleDeveloperOverlay,
                ),
                RawInput::Mouse(MouseControl::Left) => Some(EngineAction::LightAttack),
                RawInput::Mouse(MouseControl::Right) => Some(EngineAction::HeavyAttack),
                RawInput::Gamepad(GamepadControl::South) => Some(EngineAction::Jump),
                RawInput::Gamepad(GamepadControl::East) => Some(EngineAction::Dash),
                RawInput::Gamepad(GamepadControl::RightShoulder) => Some(EngineAction::LightAttack),
                RawInput::Gamepad(GamepadControl::LeftShoulder) => Some(EngineAction::HeavyAttack),
                RawInput::Gamepad(GamepadControl::West) => Some(EngineAction::Parry),
                _ => None,
            };
            slots.push(b);
            k = k + 1;
        }
        let r = ActionMap { slots };
        assert forall|i: RawInput| #![trigger default_binding(i)]
            r.slots@[input_index(i)] == default_binding(i) by {
            lemma_input_index(i);
        }
        assert(r@ =~= default_bindings());
        r
    }
}

impl ActionMap {
    #[verifier::type_invariant]
    closed spec fn one_slot_per_input(self) -> bool {
        self.slots@.len() == 17
    }

    /// The bindings in input order.
    pub fn bindings(&self) -> (r: Vec<(RawInput, EngineAction)>)
        ensures
            r@ == bindings_upto(self@, 17),
    {
        proof {
            use_type_invariant(self);
        }
        let mut r: Vec<(RawInput, EngineAction)> = Vec::new();
        let mut k: usize = 0;
        while k < RAW_INPUT_COUNT
            invariant
                k <= 17,
                self.slots@.len() == 17,
                r@ == bindings_upto(self@, k as int),
            decreases 17 - k,
        {
            let input = RawInput::from_index(k);
            match self.slots[k] {
                Some(a) => {
                    r.push((input, a));
                },
                None => {},
            }
            k = k + 1;
        }
        r
    }

    /// Binds `input` to `action` and hands back the action it was bound to.
    pub fn bind(&mut self, input: RawInput, action: EngineAction) -> (r: Option<EngineAction>)
        ensures
            final(self)@ == old(self)@.insert(input, action),
            r == map_get(old(self)@, input),
    {
        proof {
            use_type_invariant(&*self);
            lemma_input_index(input);
        }
        let k = input.index();
        let previous = self.slots[k];
        self.slots = replaced(&self.slots, k, Some(action));
        proof {
            assert forall|i: RawInput| #![trigger input_index(i)]
                (input_index(i) == input_index(input)) == (i == input) by {
                lemma_input_index(i);
            }
            assert(final(self)@ =~= old(self)@.insert(input, action));
        }
        previous
    }

    /// The action bound to `input`.
    pub fn action_for(&self, input: RawInput) -> (r: Option<EngineAction>)
        ensures
            r == map_get(self@, input),
    {
        proof {
            use_type_invariant(self);
            lemma_input_index(input);
        }
        self.slots[input.index()]
    }

    /// Looks up the action of the signal's input and moves the tracker; an event comes out
    /// only when the action's state changes.
    pub fn translate_signal(&self, tracker: &mut ActionTracker, signal: InputSignal) -> (r: Option<
        ActionEvent,
    >)
        ensures
            match map_get(self@, signal.input) {
                None => r.is_none() && final(tracker)@ == old(tracker)@,
                Some(action) => {
                    &&& final(tracker)@ == tracked_actions(old(tracker)@, action, signal.state)
                    &&& if final(tracker)@ != old(tracker)@ {
                        r == Some(
                            ActionEvent { action, state: signal.state, input: signal.input },
                        )
                    } else {
                        r.is_none()
                    }
                },
            },
    {
        let action = match self.action_for(signal.input) {
            Some(a) => a,
            None => return None,
        };
        if tracker.transition(action, signal.state) {
            Some(ActionEvent { action, state: signal.state, input: signal.input })
        } else {
            None
        }
    }
}

/// The active actions after `action` reaches `state`.
pub open spec fn tracked_actions(
    active: Set<EngineAction>,
    action: EngineAction,
    state: ActionState,
) -> Set<EngineAction> {
    match state {
        ActionState::Pressed => active.insert(action),
        ActionState::Released => active.remove(action),
    }
}

/// The active actions among the first `n` actions, in action order.
pub open spec fn actions_upto(s: Set<EngineAction>, n: int) -> Seq<EngineAction>
    decreases n,
{
    if n <= 0 {
        seq![]
    } else {
        let prev = actions_upto(s, n - 1);
        if s.contains(action_at(n - 1)) {
            prev.push(action_at(n - 1))
        } else {
            prev
        }
    }
}

/// The set of actions whose input is held.
#[derive(Debug, PartialEq, Eq)]
pub struct ActionTracker {
    active: Vec<bool>,
}

impl View for ActionTracker {
    type V = Set<EngineAction>;

    closed spec fn view(&self) -> Set<EngineAction> {
        Set::new(|a: EngineAction| self.active@[action_index(a)])
    }
}

impl Default for ActionTracker {
    fn default() -> (r: Self)
        ensures
            r@ == Set::<EngineAction>::empty(),
    {
        let mut active: Vec<bool> = Vec::new();
        let mut k: usize = 0;
        while k < 10
            invariant
                k <= 10,
                active@.len() == k,
                forall|j: int| 0 <= j < k ==> !#[trigger] active@[j],
            decreases 10 - k,
        {
            active.push(false);
            k = k + 1;
        }
        let r = ActionTracker { active };
        assert forall|a: EngineAction| !r@.contains(a) by {
            lemma_action_index(a);
        }
        assert(r@ =~= Set::<EngineAction>::empty());
        r
    }
}

impl ActionTracker {
    #[verifier::type_invariant]
    closed spec fn one_flag_per_action(self) -> bool {
        self.active@.len() == 10
    }

    /// Whether the action is held.
    pub fn is_active(&self, action: EngineAction) -> (r: bool)
        ensures
            r == self@.contains(action),
    {
        proof {
            use_type_invariant(self);
            lemma_action_index(action);
        }
        self.active[action.index()]
    }

    /// The held actions, in action order.
    pub fn active_actions(&self) -> (r: Vec<EngineAction>)
        ensures
            r@ == actions_upto(self@, 10),
    {
        proof {
            use_type_invariant(self);
        }
        let mut r: Vec<EngineAction> = Vec::new();
        let mut k: usize = 0;
        while k < 10
            invariant
                k <= 10,
                self.active@.len() == 10,
                r@ == actions_upto(self@, k as int),
            decreases 10 - k,
        {
            let a = EngineAction::from_index(k);
            if self.active[k] {
                r.push(a);
            }
            k = k + 1;
        }
        r
    }

    /// Moves `action` to `state`; true when that changed the set of held actions.
    pub fn transition(&mut self, action: EngineAction, state: ActionState) -> (r: bool)
        ensures
            final(self)@ == tracked_actions(old(self)@, action, state),
            r == (final(self)@ != old(self)@),
            r == match state {
                ActionState::Pressed => !old(self)@.contains(action),
                ActionState::Released => old(self)@.contains(action),
            },
    {
        proof {
            use_type_invariant(&*self);
            lemma_action_index(action);
        }
        let k = action.index();
        let was_active = self.active[k];
        let now_active = match state {
            ActionState::Pressed => true,
            ActionState::Released => false,
        };
        self.active = replaced(&self.active, k, now_active);
        proof {
            assert forall|a: EngineAction| #![trigger action_index(a)]
                (action_index(a) == action_index(action)) == (a == action) by {
                lemma_action_index(a);
            }
            assert(final(self)@ =~= tracked_actions(old(self)@, action, state));
            if was_active == now_active {
                assert(final(self)@ =~= old(self)@);
            } else {
                assert(final(self)@.contains(action) != old(self)@.contains(action));
            }
        }
        was_active != now_active
    }
}

/// Pressing an action that is not held and then releasing it leaves the held set as it was.
pub proof fn lemma_press_release_restores(active: Set<EngineAction>, action: EngineAction)
    requires
        !active.contains(action),
    ensures
        tracked_actions(tracked_actions(active, action, ActionState::Pressed), action, ActionState::Released) == active,
{
    assert(active.insert(action).remove(action) =~= active);
}

/// A repeated signal changes nothing: moving an action to the state it just reached keeps
/// the held set.
pub proof fn lemma_repeated_signal_is_silent(active: Set<EngineAction>, action: EngineAction, state: ActionState)
    ensures
        tracked_actions(tracked_actions(active, action, state), action, state) == tracked_actions(active, action, state),
{
    assert(tracked_actions(tracked_actions(active, action, state), action, state) =~= tracked_actions(active, action, state));
}

/// After `bind(input, action)`, looking `input` up gives `action`, and every other input
/// keeps its binding.
pub proof fn lemma_bind_then_lookup(m: Map<RawInput, EngineAction>, input: RawInput, action: EngineAction, other: RawInput)
    requires
        other != input,
    ensures
        map_get(m.insert(input, action), input) == Some(action),
        map_get(m.insert(input, action), other) == map_get(m, other),
{
}

} // verus!
