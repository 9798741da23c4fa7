//! Commands destined for the frame loop, and the effect of applying each one.
use vstd::prelude::*;

use crate::scene::{all_set, pressed_changes, Button, Interaction, ObjectCounts, Scene};

verus! {

/// A screen coordinate as the bit pattern of an IEEE-754 single-precision
/// number. The bridge carries coordinates through unchanged and never
/// computes with them.
#[derive(Clone, Copy, Debug, PartialEq, Eq, Structural)]
pub struct Coord {
    pub bits: u32,
}

/// A request for the frame loop.
#[derive(Clone, Debug)]
pub enum Command {
    Hover { x: Coord, y: Coord },
    Click { x: Coord, y: Coord },
    Screenshot { path: String },
    QueryComponents,
}

/// What applying a command yields for its reply slot.
#[derive(Clone, Debug)]
pub enum Effect {
    /// Reply at once with this flag.
    Done(bool),
    /// Reply at once with these counts.
    Counts(ObjectCounts),
    /// Issue a capture to this path; the reply comes once the file is confirmed.
    Capture(String),
}

/// Buttons after applying one command.
pub open spec fn buttons_after_one(b: Seq<Button>, c: Command) -> Seq<Button> {
    match c {
        Command::Hover { .. } => all_set(b, Interaction::Hovered),
        Command::Click { .. } => all_set(b, Interaction::Pressed),
        _ => b,
    }
}

/// Buttons after applying `cmds` in order.
pub open spec fn buttons_after(b: Seq<Button>, cmds: Seq<Command>) -> Seq<Button>
    decreases cmds.len(),
{
    if cmds.len() == 0 {
        b
    } else {
        buttons_after_one(buttons_after(b, cmds.drop_last()), cmds.last())
    }
}

/// The effect of a command on a scene of `buttons` buttons and `balls` balls.
pub open spec fn effect_of(buttons: nat, balls: nat, c: Command) -> Effect {
    match c {
        Command::Hover { .. } => Effect::Done(true),
        Command::Click { .. } => Effect::Done(true),
        Command::Screenshot { path } => Effect::Capture(path),
        Command::QueryComponents => Effect::Counts(
            ObjectCounts { balls: balls as usize, buttons: buttons as usize },
        ),
    }
}

/// Applies one command to the scene.
pub fn apply_command(scene: &mut Scene, cmd: &Command) -> (e: Effect)
    ensures
        final(scene).buttons@ == buttons_after_one(old(scene).buttons@, *cmd),
        final(scene).balls == old(scene).balls,
        e == effect_of(old(scene).buttons@.len(), old(scene).balls as nat, *cmd),
{
    match cmd {
        Command::Hover { .. } => {
            scene.set_interaction(Interaction::Hovered);
            Effect::Done(true)
        },
        Command::Click { .. } => {
            scene.set_interaction(Interaction::Pressed);
            Effect::Done(true)
        },
        Command::Screenshot { path } => Effect::Capture(path.clone()),
        Command::QueryComponents => Effect::Counts(scene.counts()),
    }
}

/// Applies `cmds` in order, returning the effect of each, position by position.
pub fn apply_commands(scene: &mut Scene, cmds: &Vec<Command>) -> (es: Vec<Effect>)
    ensures
        final(scene).buttons@ == buttons_after(old(scene).buttons@, cmds@),
        final(scene).balls == old(scene).balls,
        es@.len() == cmds@.len(),
        forall|i: int|
            0 <= i < cmds@.len() ==> #[trigger] es@[i] == effect_of(
                old(scene).buttons@.len(),
                old(scene).balls as nat,
                cmds@[i],
            ),
{
    let mut es: Vec<Effect> = Vec::new();
    let mut k: usize = 0;
    while k < cmds.len()
        invariant
            k <= cmds@.len(),
            scene.buttons@ == buttons_after(old(scene).buttons@, cmds@.take(k as int)),
            scene.buttons@.len() == old(scene).buttons@.len(),
            scene.balls == old(scene).balls,
            es@.len() == k,
            forall|i: int|
                0 <= i < k ==> #[trigger] es@[i] == effect_of(
                    old(scene).buttons@.len(),
                    old(scene).balls as nat,
                    cmds@[i],
                ),
        decreases cmds@.len() - k,
    {
        let e = apply_command(scene, &cmds[k]);
        es.push(e);
        proof {
            assert(cmds@.take(k as int + 1).drop_last() =~= cmds@.take(k as int));
        }
        k = k + 1;
    }
    assert(cmds@.take(cmds@.len() as int) =~= cmds@);
    es
}

proof fn lemma_buttons_after_len(b: Seq<Button>, cmds: Seq<Command>)
    ensures
        buttons_after(b, cmds).len() == b.len(),
    decreases cmds.len(),
{
    if cmds.len() > 0 {
        lemma_buttons_after_len(b, cmds.drop_last());
    }
}

/// A drain of hover and click commands answers every one of them with
/// success, each at its own position, and leaves the buttons as the last one
/// published sets them: the commands are applied in publish order.
pub proof fn lemma_pointer_commands_drained_in_order(b: Seq<Button>, balls: nat, cmds: Seq<Command>)
    requires
        forall|i: int| 0 <= i < cmds.len() ==> (#[trigger] cmds[i] is Hover || cmds[i] is Click),
    ensures
        forall|i: int|
            0 <= i < cmds.len() ==> #[trigger] effect_of(b.len(), balls, cmds[i]) == Effect::Done(
                true,
            ),
        cmds.len() > 0 ==> buttons_after(b, cmds) == buttons_after_one(b, cmds.last()),
{
    if cmds.len() > 0 {
        lemma_buttons_after_len(b, cmds.drop_last());
        let before = buttons_after(b, cmds.drop_last());
        assert(cmds.last() is Hover || cmds.last() is Click);
        assert(buttons_after_one(before, cmds.last()) =~= buttons_after_one(b, cmds.last()));
    }
}

/// A component query changes nothing, so a second query with no command in
/// between reports the same counts as the first.
pub proof fn lemma_query_is_idempotent(b: Seq<Button>, balls: nat)
    ensures
        buttons_after(b, seq![Command::QueryComponents]) == b,
        buttons_after(b, seq![Command::QueryComponents, Command::QueryComponents]) == b,
        effect_of(buttons_after(b, seq![Command::QueryComponents]).len(), balls, Command::QueryComponents)
            == effect_of(b.len(), balls, Command::QueryComponents),
{
    let one = seq![Command::QueryComponents];
    let two = seq![Command::QueryComponents, Command::QueryComponents];
    assert(one.drop_last() =~= Seq::<Command>::empty());
    assert(two.drop_last() =~= one);
    assert(buttons_after(b, Seq::<Command>::empty()) == b);
    assert(buttons_after(b, one) == buttons_after_one(b, Command::QueryComponents));
    assert(buttons_after(b, two) == buttons_after_one(
        buttons_after(b, one),
        Command::QueryComponents,
    ));
}

/// In a scene with one button, a frame whose drain holds one click marks that
/// button pressed, and the frame then spawns exactly one ball.
pub proof fn lemma_click_spawns_one_ball(b: Seq<Button>, x: Coord, y: Coord)
    requires
        b.len() == 1,
    ensures
        pressed_changes(buttons_after(b, seq![Command::Click { x, y }])) == 1,
{
    let one = seq![Command::Click { x, y }];
    assert(one.drop_last() =~= Seq::<Command>::empty());
    assert(buttons_after(b, Seq::<Command>::empty()) == b);
    let after = buttons_after(b, one);
    assert(after == all_set(b, Interaction::Pressed));
    assert(after.len() == 1);
    assert(after.drop_last() =~= Seq::<Button>::empty());
    assert(pressed_changes(after.drop_last()) == 0);
    assert(after.last() == (Button { interaction: Interaction::Pressed, changed: true }));
}

/// The effect of a command is of the command's own kind: a screenshot's names
/// its own path, a query's is counts, a hover's or click's is a flag. Together
/// with the position-by-position contracts of the drain, no reply goes to
/// another command's slot.
pub proof fn lemma_each_reply_answers_its_own_command(
    buttons: nat,
    balls: nat,
    cmds: Seq<Command>,
    i: int,
)
    requires
        0 <= i < cmds.len(),
    ensures
        forall|p: String|
            effect_of(buttons, balls, cmds[i]) == Effect::Capture(p) <==> cmds[i] == (
            Command::Screenshot { path: p }),
        effect_of(buttons, balls, cmds[i]) is Counts <==> cmds[i] is QueryComponents,
        effect_of(buttons, balls, cmds[i]) is Done <==> (cmds[i] is Hover || cmds[i] is Click),
{
}

proof fn lemma_pressed_all(b: Seq<Button>)
    ensures
        pressed_changes(all_set(b, Interaction::Pressed)) == b.len(),
    decreases b.len(),
{
    if b.len() > 0 {
        lemma_pressed_all(b.drop_last());
        assert(all_set(b, Interaction::Pressed).drop_last() =~= all_set(
            b.drop_last(),
            Interaction::Pressed,
        ));
    }
}

/// A frame whose drain ends with a click marks every button pressed, so the
/// frame then spawns exactly one ball per button, whatever came before the
/// click in the drain and whatever its coordinates.
pub proof fn lemma_click_frame_spawns_one_ball_per_button(b: Seq<Button>, cmds: Seq<Command>)
    requires
        cmds.len() > 0,
        cmds.last() is Click,
    ensures
        pressed_changes(buttons_after(b, cmds)) == b.len(),
{
    lemma_buttons_after_len(b, cmds.drop_last());
    let before = buttons_after(b, cmds.drop_last());
    assert(all_set(before, Interaction::Pressed) =~= all_set(b, Interaction::Pressed));
    lemma_pressed_all(b);
}

} // verus!
