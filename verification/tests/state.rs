use std::collections::HashSet;

use serenity::all::GatewayIntents;

use mordoprojekt::commands::create_gimper_attachment;
use mordoprojekt::events::{event_handler, BotEvent, Data, EventAction, CHAT_REPLY};
use mordoprojekt::startup::{
    bot_intents, daemon_settings, on_daemon_launch, on_pid_search, on_pidfile_removal,
    wants_daemon, PidSearch, Removal, Verdict,
};
use mordoprojekt::thread::{thread, thread_start, ThreadAction, ThreadEvent, ThreadKind, ThreadStage};

fn args(list: &[&str]) -> Vec<String> {
    list.iter().map(|s| s.to_string()).collect()
}

#[test]
fn daemon_mode_iff_dash_d() {
    assert!(wants_daemon(&args(&["mordoprojekt", "-d"])));
    assert!(wants_daemon(&args(&["-d", "x"])));
    assert!(!wants_daemon(&args(&["mordoprojekt"])));
    assert!(!wants_daemon(&args(&["mordoprojekt", "-dd", "d", "--d"])));
    assert!(!wants_daemon(&args(&[])));
}

#[test]
fn daemon_settings_are_fixed() {
    let s = daemon_settings();
    assert_eq!(s.pid_file, "/tmp/mordoprojekt.pid");
    assert_eq!(s.stdout_file, "/tmp/mordoprojekt.out");
    assert_eq!(s.stderr_file, "/tmp/mordoprojekt.err");
    assert_eq!(s.umask, 0o027);
}

#[test]
fn running_instance_is_killed() {
    assert_eq!(on_pid_search(PidSearch::Found(4242)), Verdict::Kill { pid: 4242 });
    assert_eq!(on_pid_search(PidSearch::NoDaemon), Verdict::Proceed);
    assert_eq!(on_pid_search(PidSearch::Failed), Verdict::WarnAndProceed);
}

#[test]
fn stale_pid_file_handling() {
    assert_eq!(on_pidfile_removal(Removal::Removed), Verdict::Proceed);
    assert_eq!(on_pidfile_removal(Removal::NotFound), Verdict::Proceed);
    assert_eq!(on_pidfile_removal(Removal::Failed), Verdict::FailWith { code: 1 });
}

#[test]
fn failed_launch_exits_with_one() {
    assert_eq!(on_daemon_launch(true), Verdict::Proceed);
    assert_eq!(on_daemon_launch(false), Verdict::FailWith { code: 1 });
}

#[test]
fn intents_are_non_privileged_plus_message_content() {
    let expected = (GatewayIntents::non_privileged() | GatewayIntents::MESSAGE_CONTENT).bits();
    assert_eq!(bot_intents(), expected);
    assert_eq!(bot_intents(), 0x0331_FEFD);
    assert_eq!(GatewayIntents::non_privileged().bits(), 0x0331_7EFD);
}

fn data_with_threads(ids: &[u64]) -> Data {
    let mut data = Data::new(create_gimper_attachment(vec![1]));
    data.chat_threads = ids.iter().copied().collect::<HashSet<u64>>();
    data
}

#[test]
fn fresh_state_has_no_threads_and_answers_nothing() {
    let data = Data::new(create_gimper_attachment(vec![1, 2]));
    assert!(data.chat_threads.is_empty());
    assert_eq!(data.gimper_attachment.data, vec![1, 2]);
    let action = event_handler(&data, 1, &BotEvent::Message { author_id: 2, channel_id: 3 });
    assert!(matches!(action, EventAction::Ignore));
}

#[test]
fn answers_mordo_in_chat_threads() {
    let data = data_with_threads(&[30, 31]);
    match event_handler(&data, 1, &BotEvent::Message { author_id: 2, channel_id: 31 }) {
        EventAction::Reply(text) => assert_eq!(text, "mordo"),
        EventAction::Ignore => panic!("expected a reply"),
    }
    assert_eq!(CHAT_REPLY, "mordo");
}

#[test]
fn ignores_own_messages() {
    let data = data_with_threads(&[30]);
    let action = event_handler(&data, 1, &BotEvent::Message { author_id: 1, channel_id: 30 });
    assert!(matches!(action, EventAction::Ignore));
}

#[test]
fn ignores_other_channels_and_events() {
    let data = data_with_threads(&[30]);
    let action = event_handler(&data, 1, &BotEvent::Message { author_id: 2, channel_id: 29 });
    assert!(matches!(action, EventAction::Ignore));
    assert!(matches!(event_handler(&data, 1, &BotEvent::Other), EventAction::Ignore));
}

fn say(action: &ThreadAction) -> Option<&str> {
    match action {
        ThreadAction::Say(t) => Some(t.as_str()),
        _ => None,
    }
}

#[test]
fn thread_happy_path() {
    let stage = thread_start("pogadanki".to_string());
    let (stage, action) = thread(stage, ThreadEvent::Invoked);
    assert_eq!(say(&action), Some("Creating Thread..."));
    let (stage, action) = thread(stage, ThreadEvent::Sent);
    assert!(matches!(action, ThreadAction::LookUpChannel));
    let (stage, action) = thread(stage, ThreadEvent::Looked { found: true });
    match &action {
        ThreadAction::CreateThread { name, kind } => {
            assert_eq!(name, "pogadanki");
            assert_eq!(*kind, ThreadKind::Public);
        }
        other => panic!("unexpected {:?}", other),
    }
    let (stage, action) = thread(stage, ThreadEvent::Created);
    assert!(matches!(action, ThreadAction::DeleteAnnouncement));
    let (stage, action) = thread(stage, ThreadEvent::Deleted);
    assert!(matches!(action, ThreadAction::Stop));
    assert!(matches!(stage, ThreadStage::Finished));
}

#[test]
fn thread_without_channel_reports_failure() {
    let stage = thread_start("x".to_string());
    let (stage, _) = thread(stage, ThreadEvent::Invoked);
    let (stage, _) = thread(stage, ThreadEvent::Sent);
    let (stage, action) = thread(stage, ThreadEvent::Looked { found: false });
    assert_eq!(say(&action), Some("Failed to get channel"));
    let (stage, action) = thread(stage, ThreadEvent::Sent);
    assert!(matches!(action, ThreadAction::Stop));
    assert!(matches!(stage, ThreadStage::Finished));
}

#[test]
fn thread_out_of_order_event_stops() {
    let stage = thread_start("x".to_string());
    let (stage, action) = thread(stage, ThreadEvent::Created);
    assert!(matches!(action, ThreadAction::Stop));
    assert!(matches!(stage, ThreadStage::Finished));
    let (stage, action) = thread(stage, ThreadEvent::Invoked);
    assert!(matches!(action, ThreadAction::Stop));
    assert!(matches!(stage, ThreadStage::Finished));
}

#[test]
fn thread_finishes_within_five_steps() {
    for found in [true, false] {
        let mut stage = thread_start("t".to_string());
        let events = [
            ThreadEvent::Invoked,
            ThreadEvent::Sent,
            ThreadEvent::Looked { found },
            if found { ThreadEvent::Created } else { ThreadEvent::Sent },
            ThreadEvent::Deleted,
        ];
        for e in events {
            stage = thread(stage, e).0;
        }
        assert!(matches!(stage, ThreadStage::Finished));
    }
}
