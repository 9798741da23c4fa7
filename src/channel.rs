//! The command channel between network handlers and the frame loop, and the
//! per-frame drain that applies every queued command and answers its reply slot.
use vstd::prelude::*;

use crate::command::{
    apply_command, buttons_after, lemma_click_spawns_one_ball, Command, Coord, Effect,
};
use crate::scene::{pressed_changes, Button, ObjectCounts, Scene};
use crossbeam_channel::{Receiver, Sender};
use tokio::sync::oneshot;

verus! {

/// crossbeam_channel::Sender, the producing half of the command queue; opaque here.
#[verifier::external_type_specification]
#[verifier::external_body]
#[verifier::reject_recursive_types(T)]
pub struct ExSender<T>(Sender<T>);

/// crossbeam_channel::Receiver, the consuming half of the command queue; opaque here.
#[verifier::external_type_specification]
#[verifier::external_body]
#[verifier::reject_recursive_types(T)]
pub struct ExReceiver<T>(Receiver<T>);

/// tokio::sync::oneshot::Sender, the writing end of a reply slot; opaque here.
#[verifier::external_type_specification]
#[verifier::external_body]
#[verifier::reject_recursive_types(T)]
pub struct ExReplySender<T>(oneshot::Sender<T>);

/// Relies on crossbeam_channel::unbounded: a fresh queue of unbounded capacity
/// whose sender and receiver are connected to each other.
#[verifier::external_body]
fn unbounded_queue<T>() -> (Sender<T>, Receiver<T>) {
    crossbeam_channel::unbounded()
}

/// Relies on crossbeam_channel::Receiver::try_iter: takes every message that is
/// queued at the moment, in order, without blocking.
#[verifier::external_body]
fn take_queued<T>(r: &Receiver<T>) -> Vec<T> {
    r.try_iter().collect()
}

/// Relies on tokio::sync::oneshot::Sender::send: hands the value to the
/// waiting reader if it is still there; otherwise the value is dropped.
#[verifier::external_body]
fn fulfill<T>(slot: oneshot::Sender<T>, value: T) {
    let _ = slot.send(value);
}

/// A command together with the single-use slot that carries its reply.
#[derive(Debug)]
pub enum TestMessage {
    Hover { x: Coord, y: Coord, response: oneshot::Sender<bool> },
    Click { x: Coord, y: Coord, response: oneshot::Sender<bool> },
    Screenshot { path: String, response: oneshot::Sender<bool> },
    QueryComponents { response: oneshot::Sender<ObjectCounts> },
}

/// The command that a message carries, without its reply slot.
pub open spec fn command_of(m: TestMessage) -> Command {
    match m {
        TestMessage::Hover { x, y, .. } => Command::Hover { x, y },
        TestMessage::Click { x, y, .. } => Command::Click { x, y },
        TestMessage::Screenshot { path, .. } => Command::Screenshot { path },
        TestMessage::QueryComponents { .. } => Command::QueryComponents,
    }
}

/// A value handed to a reply slot.
#[derive(Clone, Copy, Debug, PartialEq, Eq, Structural)]
pub enum Reply {
    Flag(bool),
    Counts(ObjectCounts),
}

/// What the drain hands to the reply slot of `c` in a scene of `buttons`
/// buttons and `balls` balls: `true` for a hover or click, the counts for a
/// query, and nothing for a screenshot, whose slot is handed back unanswered.
pub open spec fn reply_of(buttons: nat, balls: nat, c: Command) -> Option<Reply> {
    match c {
        Command::Hover { .. } => Some(Reply::Flag(true)),
        Command::Click { .. } => Some(Reply::Flag(true)),
        Command::Screenshot { .. } => None,
        Command::QueryComponents => Some(
            Reply::Counts(ObjectCounts { balls: balls as usize, buttons: buttons as usize }),
        ),
    }
}

/// Paths of the screenshot commands in `cmds`, in order.
pub open spec fn capture_paths(cmds: Seq<Command>) -> Seq<String>
    decreases cmds.len(),
{
    if cmds.len() == 0 {
        Seq::empty()
    } else {
        let front = capture_paths(cmds.drop_last());
        match cmds.last() {
            Command::Screenshot { path } => front.push(path),
            _ => front,
        }
    }
}

/// A screenshot whose capture was issued and whose file is not confirmed yet.
pub struct PendingCapture {
    pub path: String,
    pub response: oneshot::Sender<bool>,
}

impl PendingCapture {
    /// Answers the screenshot request: `appeared` tells whether the file was
    /// confirmed within the wait budget.
    pub fn finish(self, appeared: bool) {
        fulfill(self.response, appeared);
    }
}

/// What one drain took from the channel.
pub struct Drained {
    /// The commands applied, in the order they were published.
    pub commands: Vec<Command>,
    /// The captures that still await their file, in the same order.
    pub captures: Vec<PendingCapture>,
    /// What each message's reply slot was handed, position by position;
    /// `None` where the slot went out unanswered in `captures`.
    pub replies: Ghost<Seq<Option<Reply>>>,
}

/// The unbounded multi-producer, single-consumer command queue.
pub struct TestChannel {
    pub sender: Sender<TestMessage>,
    pub receiver: Receiver<TestMessage>,
}

impl TestChannel {
    /// A fresh, empty channel.
    pub fn new() -> TestChannel {
        let (sender, receiver) = unbounded_queue();
        TestChannel { sender, receiver }
    }
}

/// Applies `queued` to the scene in order and answers each reply slot: hover
/// and click with `true`, a query with the counts at that point. A screenshot
/// is handed back, its slot unanswered, for its capture and file wait. A slot
/// whose reader is gone is answered all the same, and the value dropped.
pub fn apply_messages(queued: Vec<TestMessage>, scene: &mut Scene) -> (r: Drained)
    ensures
        r.commands@ == queued@.map_values(|m: TestMessage| command_of(m)),
        final(scene).buttons@ == buttons_after(old(scene).buttons@, r.commands@),
        final(scene).balls == old(scene).balls,
        r.captures@.map_values(|c: PendingCapture| c.path) == capture_paths(r.commands@),
        r.replies@.len() == r.commands@.len(),
        forall|i: int|
            0 <= i < r.commands@.len() ==> #[trigger] r.replies@[i] == reply_of(
                old(scene).buttons@.len(),
                old(scene).balls as nat,
                r.commands@[i],
            ),
{
    let ghost all = queued@;
    let mut pending = queued;
    let mut commands: Vec<Command> = Vec::new();
    let mut captures: Vec<PendingCapture> = Vec::new();
    let ghost mut replies: Seq<Option<Reply>> = Seq::empty();
    while pending.len() > 0
        invariant
            commands@.len() <= all.len(),
            pending@ == all.skip(commands@.len() as int),
            forall|i: int|
                0 <= i < commands@.len() ==> #[trigger] commands@[i] == command_of(all[i]),
            scene.buttons@ == buttons_after(old(scene).buttons@, commands@),
            scene.buttons@.len() == old(scene).buttons@.len(),
            scene.balls == old(scene).balls,
            captures@.map_values(|c: PendingCapture| c.path) == capture_paths(commands@),
            replies.len() == commands@.len(),
            forall|i: int|
                0 <= i < commands@.len() ==> #[trigger] replies[i] == reply_of(
                    old(scene).buttons@.len(),
                    old(scene).balls as nat,
                    commands@[i],
                ),
        decreases pending@.len(),
    {
        let ghost k = commands@.len() as int;
        assert(pending@[0] == all[k]);
        let msg = pending.remove(0);
        assert(pending@ =~= all.skip(k + 1));
        let ghost before = commands@;
        let ghost caps = captures@;
        match msg {
            TestMessage::Hover { x, y, response } => {
                let cmd = Command::Hover { x, y };
                let _ = apply_command(scene, &cmd);
                commands.push(cmd);
                let answer = true;
                fulfill(response, answer);
                proof {
                    replies = replies.push(Some(Reply::Flag(answer)));
                }
            },
            TestMessage::Click { x, y, response } => {
                let cmd = Command::Click { x, y };
                let _ = apply_command(scene, &cmd);
                commands.push(cmd);
                let answer = true;
                fulfill(response, answer);
                proof {
                    replies = replies.push(Some(Reply::Flag(answer)));
                }
            },
            TestMessage::Screenshot { path, response } => {
                let cmd = Command::Screenshot { path: path.clone() };
                let _ = apply_command(scene, &cmd);
                commands.push(cmd);
                captures.push(PendingCapture { path, response });
                assert(captures@.map_values(|c: PendingCapture| c.path) =~= caps.map_values(
                    |c: PendingCapture| c.path,
                ).push(path));
                proof {
                    replies = replies.push(None);
                }
            },
            TestMessage::QueryComponents { response } => {
                let cmd = Command::QueryComponents;
                let e = apply_command(scene, &cmd);
                commands.push(cmd);
                match e {
                    Effect::Counts(c) => {
                        fulfill(response, c);
                        proof {
                            replies = replies.push(Some(Reply::Counts(c)));
                        }
                    },
                    _ => {},
                }
            },
        }
        assert(commands@.drop_last() =~= before);
    }
    assert(commands@ =~= all.map_values(|m: TestMessage| command_of(m)));
    Drained { commands, captures, replies: Ghost(replies) }
}

/// Takes every message queued at the moment, without blocking, and applies
/// them as [`apply_messages`] does. What the queue held depends on the
/// producers; whatever it was, the result records it in order.
pub fn receive_test_messages(channel: &TestChannel, scene: &mut Scene) -> (r: Drained)
    ensures
        final(scene).buttons@ == buttons_after(old(scene).buttons@, r.commands@),
        final(scene).balls == old(scene).balls,
        r.captures@.map_values(|c: PendingCapture| c.path) == capture_paths(r.commands@),
        r.replies@.len() == r.commands@.len(),
        forall|i: int|
            0 <= i < r.commands@.len() ==> #[trigger] r.replies@[i] == reply_of(
                old(scene).buttons@.len(),
                old(scene).balls as nat,
                r.commands@[i],
            ),
{
    let queued = take_queued(&channel.receiver);
    apply_messages(queued, scene)
}

/// In a scene with one button and `balls` balls, a frame that drains one
/// click spawns one ball, so a query drained in the next frame is answered
/// with one ball more and the same single button.
pub proof fn lemma_click_then_query_reports_one_more_ball(
    b: Seq<Button>,
    balls: nat,
    x: Coord,
    y: Coord,
)
    requires
        b.len() == 1,
        balls + 1 <= usize::MAX,
    ensures
        reply_of(
            buttons_after(b, seq![Command::Click { x, y }]).len(),
            balls + pressed_changes(buttons_after(b, seq![Command::Click { x, y }])),
            Command::QueryComponents,
        ) == Some(Reply::Counts(ObjectCounts { balls: (balls + 1) as usize, buttons: 1 })),
{
    lemma_click_spawns_one_ball(b, x, y);
    assert(seq![Command::Click { x, y }].drop_last() =~= Seq::<Command>::empty());
    assert(buttons_after(b, Seq::<Command>::empty()) == b);
}

} // verus!
