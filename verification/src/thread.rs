//! The `thread` command: open a public thread in the channel the command was used in.
//! The command alternates chat requests and decisions; `thread` is its step function,
//! from the current stage and the outcome of the last request to the next stage and
//! the next request.

use vstd::prelude::*;

verus! {

/// Shown while the thread is being made.
pub const CREATING_THREAD: &'static str = "Creating Thread...";

/// Shown when the command was not used in a server channel.
pub const NO_CHANNEL: &'static str = "Failed to get channel";

/// Where the command stands.
#[derive(Debug)]
pub enum ThreadStage {
    /// Not started; the thread is to be named `name`.
    Ready { name: String },
    /// The "creating" message is being sent.
    Announcing { name: String },
    /// The channel the command was used in is being looked up.
    LookingUp { name: String },
    /// The failure message is being sent.
    Failing,
    /// The thread is being made.
    Creating,
    /// The "creating" message is being deleted.
    Cleaning,
    /// Nothing more to do.
    Finished,
}

/// The outcome of the last request.
#[derive(Debug, Clone, Copy, PartialEq, Eq, Structural)]
pub enum ThreadEvent {
    /// The command was invoked.
    Invoked,
    /// A message was sent.
    Sent,
    /// The channel lookup ended; `found` tells whether the command came from a server channel.
    Looked { found: bool },
    /// The thread exists.
    Created,
    /// The "creating" message is gone.
    Deleted,
}

/// The kind of thread made.
#[derive(Debug, Clone, Copy, PartialEq, Eq, Structural)]
pub enum ThreadKind {
    Public,
}

/// The next request.
#[derive(Debug)]
pub enum ThreadAction {
    /// Reply with this text.
    Say(String),
    /// Look up the channel the command was used in.
    LookUpChannel,
    /// Make a thread of this name and kind in that channel.
    CreateThread { name: String, kind: ThreadKind },
    /// Delete the "creating" message.
    DeleteAnnouncement,
    /// Stop: the command is done.
    Stop,
}

/// `ThreadStage` with texts as character sequences.
pub enum StageView {
    Ready(Seq<char>),
    Announcing(Seq<char>),
    LookingUp(Seq<char>),
    Failing,
    Creating,
    Cleaning,
    Finished,
}

/// `ThreadAction` with texts as character sequences.
pub enum ActionView {
    Say(Seq<char>),
    LookUpChannel,
    CreateThread(Seq<char>, ThreadKind),
    DeleteAnnouncement,
    Stop,
}

impl View for ThreadStage {
    type V = StageView;

    open spec fn view(&self) -> StageView {
        match self {
            ThreadStage::Ready { name } => StageView::Ready(name@),
            ThreadStage::Announcing { name } => StageView::Announcing(name@),
            ThreadStage::LookingUp { name } => StageView::LookingUp(name@),
            ThreadStage::Failing => StageView::Failing,
            ThreadStage::Creating => StageView::Creating,
            ThreadStage::Cleaning => StageView::Cleaning,
            ThreadStage::Finished => StageView::Finished,
        }
    }
}

impl View for ThreadAction {
    type V = ActionView;

    open spec fn view(&self) -> ActionView {
        match self {
            ThreadAction::Say(t) => ActionView::Say(t@),
            ThreadAction::LookUpChannel => ActionView::LookUpChannel,
            ThreadAction::CreateThread { name, kind } => ActionView::CreateThread(name@, *kind),
            ThreadAction::DeleteAnnouncement => ActionView::DeleteAnnouncement,
            ThreadAction::Stop => ActionView::Stop,
        }
    }
}

/// The steps of the command: announce, look up the channel, then either report that
/// there is none or make the thread and delete the announcement. An outcome that does
/// not belong to the current stage ends the command.
pub open spec fn thread_transition(stage: StageView, event: ThreadEvent) -> (StageView, ActionView) {
    match (stage, event) {
        (StageView::Ready(name), ThreadEvent::Invoked) =>
            (StageView::Announcing(name), ActionView::Say(CREATING_THREAD@)),
        (StageView::Announcing(name), ThreadEvent::Sent) =>
            (StageView::LookingUp(name), ActionView::LookUpChannel),
        (StageView::LookingUp(name), ThreadEvent::Looked { found }) =>
            if found {
                (StageView::Creating, ActionView::CreateThread(name, ThreadKind::Public))
            } else {
                (StageView::Failing, ActionView::Say(NO_CHANNEL@))
            },
        (StageView::Failing, ThreadEvent::Sent) => (StageView::Finished, ActionView::Stop),
        (StageView::Creating, ThreadEvent::Created) => (StageView::Cleaning, ActionView::DeleteAnnouncement),
        (StageView::Cleaning, ThreadEvent::Deleted) => (StageView::Finished, ActionView::Stop),
        _ => (StageView::Finished, ActionView::Stop),
    }
}

/// The stage in which the command to make a thread named `thread_name` starts.
pub fn thread_start(thread_name: String) -> (stage: ThreadStage)
    ensures
        stage@ == StageView::Ready(thread_name@),
{
    ThreadStage::Ready { name: thread_name }
}

/// One step of the `thread` command: the next stage and the next request, given the
/// outcome of the last one.
pub fn thread(stage: ThreadStage, event: ThreadEvent) -> (next: (ThreadStage, ThreadAction))
    ensures
        (next.0@, next.1@) == thread_transition(stage@, event),
        stage@ matches StageView::Ready(name) ==> (event == ThreadEvent::Invoked ==> next.0@
            == StageView::Announcing(name) && next.1@ == ActionView::Say(CREATING_THREAD@)),
        stage@ matches StageView::Announcing(name) ==> (event == ThreadEvent::Sent ==> next.0@
            == StageView::LookingUp(name) && next.1@ == ActionView::LookUpChannel),
        stage@ matches StageView::LookingUp(name) ==> (event == (ThreadEvent::Looked { found: true })
            ==> next.1@ == ActionView::CreateThread(name, ThreadKind::Public)),
{
    match (stage, event) {
        (ThreadStage::Ready { name }, ThreadEvent::Invoked) =>
            (ThreadStage::Announcing { name }, ThreadAction::Say(CREATING_THREAD.to_string())),
        (ThreadStage::Announcing { name }, ThreadEvent::Sent) =>
            (ThreadStage::LookingUp { name }, ThreadAction::LookUpChannel),
        (ThreadStage::LookingUp { name }, ThreadEvent::Looked { found }) =>
            if found {
                (ThreadStage::Creating, ThreadAction::CreateThread { name, kind: ThreadKind::Public })
            } else {
                (ThreadStage::Failing, ThreadAction::Say(NO_CHANNEL.to_string()))
            },
        (ThreadStage::Failing, ThreadEvent::Sent) => (ThreadStage::Finished, ThreadAction::Stop),
        (ThreadStage::Creating, ThreadEvent::Created) => (ThreadStage::Cleaning, ThreadAction::DeleteAnnouncement),
        (ThreadStage::Cleaning, ThreadEvent::Deleted) => (ThreadStage::Finished, ThreadAction::Stop),
        _ => (ThreadStage::Finished, ThreadAction::Stop),
    }
}

/// How many steps, at most, remain before the command is done.
pub open spec fn steps_left(stage: StageView) -> nat {
    match stage {
        StageView::Ready(_) => 5,
        StageView::Announcing(_) => 4,
        StageView::LookingUp(_) => 3,
        StageView::Creating => 2,
        StageView::Failing => 1,
        StageView::Cleaning => 1,
        StageView::Finished => 0,
    }
}

/// The command always comes to an end: every step from an unfinished stage brings it
/// closer to `Finished`, and a finished command stays finished and asks for nothing.
pub proof fn lemma_thread_progresses(stage: StageView, event: ThreadEvent)
    ensures
        !(stage is Finished) ==> steps_left(thread_transition(stage, event).0) < steps_left(stage),
        stage is Finished ==> thread_transition(stage, event) == (StageView::Finished, ActionView::Stop),
{
}

/// A thread is made only right after the channel lookup found a channel, with the name
/// the command was given, and always as a public thread.
pub proof fn lemma_thread_made_only_in_found_channel(stage: StageView, event: ThreadEvent)
    ensures
        thread_transition(stage, event).1 matches ActionView::CreateThread(name, kind) ==> {
            &&& stage == StageView::LookingUp(name)
            &&& event == (ThreadEvent::Looked { found: true })
            &&& kind == ThreadKind::Public
        },
        stage matches StageView::LookingUp(name) ==> (event == (ThreadEvent::Looked { found: true })
            ==> thread_transition(stage, event).1 == ActionView::CreateThread(name, ThreadKind::Public)),
{
}

/// The thread is made with the name the command was started with: from `Ready(name)`,
/// the outcomes `Invoked`, `Sent` and `Looked { found: true }` announce "Creating
/// Thread...", look the channel up, and then make a public thread named exactly `name`;
/// the name passes unchanged through every stage on the way.
pub proof fn lemma_thread_keeps_its_name(name: Seq<char>)
    ensures
        ({
            let s1 = thread_transition(StageView::Ready(name), ThreadEvent::Invoked);
            let s2 = thread_transition(s1.0, ThreadEvent::Sent);
            let s3 = thread_transition(s2.0, ThreadEvent::Looked { found: true });
            &&& s1 == (StageView::Announcing(name), ActionView::Say(CREATING_THREAD@))
            &&& s2 == (StageView::LookingUp(name), ActionView::LookUpChannel)
            &&& s3.1 == ActionView::CreateThread(name, ThreadKind::Public)
            &&& s3.0 == StageView::Creating
        }),
{
}

/// How a run of the command goes on after the lookup: when a channel was found, the
/// thread's creation is followed by deleting the "creating" message and stopping;
/// when none was found, "Failed to get channel" is said and the command stops.
pub proof fn lemma_thread_run_ends(name: Seq<char>)
    ensures
        ({
            let c1 = thread_transition(StageView::LookingUp(name), ThreadEvent::Looked { found: true });
            let c2 = thread_transition(c1.0, ThreadEvent::Created);
            let c3 = thread_transition(c2.0, ThreadEvent::Deleted);
            &&& c2 == (StageView::Cleaning, ActionView::DeleteAnnouncement)
            &&& c3 == (StageView::Finished, ActionView::Stop)
        }),
        ({
            let f1 = thread_transition(StageView::LookingUp(name), ThreadEvent::Looked { found: false });
            let f2 = thread_transition(f1.0, ThreadEvent::Sent);
            &&& f1.1 == ActionView::Say("Failed to get channel"@)
            &&& f2 == (StageView::Finished, ActionView::Stop)
        }),
        thread_transition(StageView::Ready(name), ThreadEvent::Invoked).1 == ActionView::Say(
            "Creating Thread..."@,
        ),
{
}

/// The "creating" message is deleted only once the thread exists; when the lookup
/// finds no channel, the command says so and the message stays.
pub proof fn lemma_announcement_removed_only_after_creation(stage: StageView, event: ThreadEvent)
    ensures
        thread_transition(stage, event).1 is DeleteAnnouncement ==> stage is Creating && event is Created,
        stage is LookingUp && event == (ThreadEvent::Looked { found: false }) ==>
            thread_transition(stage, event) == (StageView::Failing, ActionView::Say(NO_CHANNEL@)),
{
}

} // verus!
