//! The part of the live application state that the bridge reads and writes:
//! the pointer state of each interactive button and the number of spawned balls.
use vstd::prelude::*;

verus! {

/// Pointer-interaction state of an interactive control.
#[derive(Clone, Copy, Debug, PartialEq, Eq, Structural)]
pub enum Interaction {
    Idle,
    Hovered,
    Pressed,
}

/// One interactive button: its pointer state and whether that state was
/// written during the current frame.
#[derive(Clone, Copy, Debug, PartialEq, Eq, Structural)]
pub struct Button {
    pub interaction: Interaction,
    pub changed: bool,
}

/// Counts of the tracked object kinds.
#[derive(Clone, Copy, Debug, PartialEq, Eq, Structural)]
pub struct ObjectCounts {
    pub balls: usize,
    pub buttons: usize,
}

/// How a button is drawn for a given pointer state.
#[derive(Clone, Copy, Debug, PartialEq, Eq, Structural)]
pub enum ButtonVisual {
    Normal,
    Highlighted,
    Darkened,
}

/// Model of the live scene for one frame.
pub struct Scene {
    pub buttons: Vec<Button>,
    pub balls: usize,
}

/// Every button after a pointer state is written to all of them.
pub open spec fn all_set(b: Seq<Button>, i: Interaction) -> Seq<Button> {
    Seq::new(b.len(), |k: int| Button { interaction: i, changed: true })
}

/// Number of buttons whose state changed this frame and is `Pressed`.
pub open spec fn pressed_changes(b: Seq<Button>) -> nat
    decreases b.len(),
{
    if b.len() == 0 {
        0
    } else {
        pressed_changes(b.drop_last()) + if b.last().changed && b.last().interaction
            == Interaction::Pressed {
            1nat
        } else {
            0nat
        }
    }
}

/// Buttons with their change marks cleared, states kept.
pub open spec fn settled(b: Seq<Button>) -> Seq<Button> {
    Seq::new(b.len(), |k: int| Button { interaction: b[k].interaction, changed: false })
}

impl Scene {
    /// A scene with `buttons` idle buttons and no balls.
    pub fn new(buttons: usize) -> (r: Scene)
        ensures
            r.buttons@ == Seq::new(
                buttons as nat,
                |k: int| Button { interaction: Interaction::Idle, changed: false },
            ),
            r.balls == 0,
    {
        let mut v: Vec<Button> = Vec::new();
        let mut k: usize = 0;
        while k < buttons
            invariant
                k <= buttons,
                v@ == Seq::new(
                    k as nat,
                    |j: int| Button { interaction: Interaction::Idle, changed: false },
                ),
            decreases buttons - k,
        {
            v.push(Button { interaction: Interaction::Idle, changed: false });
            k = k + 1;
        }
        Scene { buttons: v, balls: 0 }
    }

    /// Current count of each tracked object kind.
    pub fn counts(&self) -> (r: ObjectCounts)
        ensures
            r.balls == self.balls,
            r.buttons == self.buttons@.len(),
    {
        ObjectCounts { balls: self.balls, buttons: self.buttons.len() }
    }

    /// Writes pointer state `i` to every button (no hit-testing) and marks
    /// each of them changed for this frame.
    pub fn set_interaction(&mut self, i: Interaction)
        ensures
            final(self).buttons@ == all_set(old(self).buttons@, i),
            final(self).balls == old(self).balls,
    {
        let n = self.buttons.len();
        let mut k: usize = 0;
        while k < n
            invariant
                n == self.buttons@.len(),
                n == old(self).buttons@.len(),
                k <= n,
                self.balls == old(self).balls,
                forall|j: int|
                    0 <= j < k ==> self.buttons@[j] == (Button { interaction: i, changed: true }),
            decreases n - k,
        {
            self.buttons.set(k, Button { interaction: i, changed: true });
            k = k + 1;
        }
        assert(self.buttons@ =~= all_set(old(self).buttons@, i));
    }

    /// Spawns one ball for every button that was pressed this frame, then
    /// clears the change marks. Returns how many balls were spawned.
    pub fn handle_button_interaction(&mut self) -> (spawned: usize)
        requires
            old(self).balls + old(self).buttons@.len() <= usize::MAX,
        ensures
            spawned == pressed_changes(old(self).buttons@),
            final(self).balls == old(self).balls + spawned,
            final(self).buttons@ == settled(old(self).buttons@),
    {
        let n = self.buttons.len();
        let mut spawned: usize = 0;
        let mut k: usize = 0;
        while k < n
            invariant
                n == self.buttons@.len(),
                n == old(self).buttons@.len(),
                k <= n,
                self.balls == old(self).balls,
                old(self).balls + n <= usize::MAX,
                spawned == pressed_changes(old(self).buttons@.take(k as int)),
                spawned <= k,
                forall|j: int| 0 <= j < k ==> self.buttons@[j] == (Button {
                    interaction: old(self).buttons@[j].interaction,
                    changed: false,
                }),
                forall|j: int| k <= j < n ==> self.buttons@[j] == old(self).buttons@[j],
            decreases n - k,
        {
            proof {
                assert(old(self).buttons@.take(k as int + 1).drop_last() =~= old(
                    self,
                ).buttons@.take(k as int));
            }
            let b = self.buttons[k];
            if b.changed && b.interaction == Interaction::Pressed {
                spawned = spawned + 1;
            }
            self.buttons.set(k, Button { interaction: b.interaction, changed: false });
            k = k + 1;
        }
        assert(old(self).buttons@.take(n as int) =~= old(self).buttons@);
        assert(self.buttons@ =~= settled(old(self).buttons@));
        self.balls = self.balls + spawned;
        spawned
    }
}

/// The name of each tracked object kind with its count, sorted by name.
pub open spec fn count_entries(c: ObjectCounts) -> Seq<(Seq<char>, usize)> {
    seq![("Ball"@, c.balls), ("Button"@, c.buttons)]
}

impl ObjectCounts {
    /// Each tracked kind's name with its count, sorted by name.
    pub fn entries(&self) -> (r: Vec<(String, usize)>)
        ensures
            r@.map_values(|e: (String, usize)| (e.0@, e.1)) == count_entries(*self),
    {
        let r = vec![
            (String::from_str("Ball"), self.balls),
            (String::from_str("Button"), self.buttons),
        ];
        assert(r@.map_values(|e: (String, usize)| (e.0@, e.1)) =~= count_entries(*self));
        r
    }
}

/// How a button is drawn in each pointer state.
pub fn button_visual(i: Interaction) -> (r: ButtonVisual)
    ensures
        r == match i {
            Interaction::Pressed => ButtonVisual::Darkened,
            Interaction::Hovered => ButtonVisual::Highlighted,
            Interaction::Idle => ButtonVisual::Normal,
        },
{
    match i {
        Interaction::Pressed => ButtonVisual::Darkened,
        Interaction::Hovered => ButtonVisual::Highlighted,
        Interaction::Idle => ButtonVisual::Normal,
    }
}

} // verus!
