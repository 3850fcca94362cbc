use vanaisa::voiceline::AudioStep;
use vanaisa::commands::join::JoinCommand;
use vanaisa::commands::leave::{LeaveAction, LeaveCommand};
use vanaisa::commands::pena::PenaCommand;
use vanaisa::commands::secret::{SecretCommand, SECRET_USER_ID};
use vanaisa::commands::test::TestCommand;
use vanaisa::commands::vanaisa::{VanaisaCommand, VANAISA_USER_ID};
use vanaisa::commands::{refusal, Command, CommandList, IncomingMessage};
use vanaisa::pattern::mentions_pena_word;

fn message(content: &str, author_id: u64) -> IncomingMessage {
    IncomingMessage {
        content: content.to_string(),
        author_id,
        author_name: "someone".to_string(),
    }
}

#[test]
fn command_names() {
    assert_eq!(JoinCommand::new().name(), "join");
    assert_eq!(LeaveCommand::new().name(), "leave");
    assert_eq!(PenaCommand::new().name(), "pena");
    assert_eq!(SecretCommand::new().name(), "secret");
    assert_eq!(TestCommand::new().name(), "test");
    assert_eq!(VanaisaCommand::new().name(), "vanaisa");
}

#[test]
fn exact_text_commands() {
    assert!(JoinCommand::new().requirement(&message("&join", 1)));
    assert!(!JoinCommand::new().requirement(&message("&join ", 1)));
    assert!(!JoinCommand::new().requirement(&message("&Join", 1)));
    assert!(!JoinCommand::new().requirement(&message("please &join", 1)));
    assert!(LeaveCommand::new().requirement(&message("&leave", 1)));
    assert!(!LeaveCommand::new().requirement(&message("&join", 1)));
    assert!(TestCommand::new().requirement(&message("&test", 1)));
    assert!(!TestCommand::new().requirement(&message("&tests", 1)));
}

#[test]
fn secret_only_for_its_user() {
    let cmd = SecretCommand::new();
    assert!(cmd.requirement(&message("&secret", SECRET_USER_ID)));
    assert!(cmd.requirement(&message("&secret", 128685552450011137)));
    assert!(!cmd.requirement(&message("&secret", 1)));
    assert!(!cmd.requirement(&message("&join", SECRET_USER_ID)));
    assert_eq!(SecretCommand::audio_path(), "./audio/Primogenitor_master-02.mp3");
}

#[test]
fn pena_pattern_matches_any_case_and_bars() {
    assert!(mentions_pena_word("pena"));
    assert!(mentions_pena_word("PENA"));
    assert!(mentions_pena_word("I love PeNa!"));
    assert!(mentions_pena_word("p|n|"));
    assert!(mentions_pena_word("||||"));
    assert!(!mentions_pena_word("pen a"));
    assert!(!mentions_pena_word("pen"));
    assert!(!mentions_pena_word(""));
    assert!(!mentions_pena_word("penna"));
}

#[test]
fn pena_requirement_given_roll() {
    let cmd = PenaCommand::new();
    assert!(cmd.requirement_given(&message("hey pena", 5), true));
    assert!(!cmd.requirement_given(&message("hey pena", 5), false));
    assert!(!cmd.requirement_given(&message("hey there", 5), true));
    for _ in 0..50 {
        assert!(!cmd.requirement(&message("hey there", 5)));
    }
}

#[test]
fn pena_pings_five_times() {
    let msgs = PenaCommand::messages(42);
    assert_eq!(msgs.len(), 5);
    for m in &msgs {
        assert_eq!(m, "<@42> mis see on");
    }
    assert_eq!(PenaCommand::ping(855177115104575518), "<@855177115104575518> mis see on");
}

#[test]
fn vanaisa_requirement() {
    let cmd = VanaisaCommand::new();
    assert!(cmd.requirement_given(&message("anything", VANAISA_USER_ID), true));
    assert!(!cmd.requirement_given(&message("anything", VANAISA_USER_ID), false));
    assert!(!cmd.requirement_given(&message("anything", 7), true));
    for _ in 0..50 {
        assert!(!cmd.requirement(&message("anything", 7)));
    }
    assert_eq!(VanaisaCommand::reply(), "Mis see on");
}

#[test]
fn vanaisa_chance_is_random() {
    let cmd = VanaisaCommand::new();
    let msg = message("hello", 855177115104575518);
    let mut hits = 0;
    let tries = 4000;
    for _ in 0..tries {
        if cmd.requirement(&msg) {
            hits += 1;
        }
    }
    assert!(hits > 0);
    assert!(hits < tries);
}

#[test]
fn join_and_leave_decisions() {
    assert_eq!(JoinCommand::connect_target(Some(77)), Ok(77));
    assert_eq!(JoinCommand::connect_target(None), Err("Mis see on".to_string()));
    assert!(matches!(LeaveCommand::action(true), LeaveAction::Disconnect));
    match LeaveCommand::action(false) {
        LeaveAction::Reply(r) => assert_eq!(r, "Mis see on"),
        LeaveAction::Disconnect => panic!("expected a reply"),
    }
    assert_eq!(refusal(), "Mis see on");
    assert_eq!(TestCommand::announcement(), "mis see on");
}

#[test]
fn command_list_order() {
    let cl = CommandList::new();
    assert_eq!(cl.list.len(), 2);
    assert_eq!(cl.list[0].name(), "pena");
    assert_eq!(cl.list[1].name(), "vanaisa");
}

#[test]
fn select_takes_first_firing_command() {
    let cl = CommandList::new();
    let from_user_pena = message("pena", VANAISA_USER_ID);
    assert_eq!(cl.select_given(&from_user_pena, &vec![true, true]), Some(0));
    assert_eq!(cl.select_given(&from_user_pena, &vec![false, true]), Some(1));
    assert_eq!(cl.select_given(&from_user_pena, &vec![false, false]), None);
    let plain = message("hello", 3);
    assert_eq!(cl.select_given(&plain, &vec![true, true]), None);
    assert_eq!(cl.select(&plain), None);
    let user_plain = message("hello", VANAISA_USER_ID);
    assert_eq!(cl.select_given(&user_plain, &vec![true, true]), Some(1));
}

#[test]
fn select_prefers_earlier_sure_commands() {
    let cl = CommandList {
        list: vec![
            Command::Join(JoinCommand::new()),
            Command::Pena(PenaCommand::new()),
            Command::Leave(LeaveCommand::new()),
        ],
    };
    assert_eq!(cl.select(&message("&join", 1)), Some(0));
    assert_eq!(cl.select(&message("&leave", 1)), Some(2));
    assert_eq!(cl.select_given(&message("&leave", 1), &vec![true, true, true]), Some(2));
    assert_eq!(cl.select(&message("nothing", 1)), None);
}

#[test]
fn log_lines() {
    let cmd = Command::Join(JoinCommand::new());
    assert_eq!(cmd.log("bob", 7), "bob#7 ran command join");
    let cmd = Command::Vanaisa(VanaisaCommand::new());
    assert_eq!(cmd.log("Ann", 855177115104575518), "Ann#855177115104575518 ran command vanaisa");
}

#[test]
fn chances_are_drawn_only_for_candidates() {
    for _ in 0..50 {
        assert!(!PenaCommand::new().draw_chance(&message("hello", 1)));
        assert!(!VanaisaCommand::new().draw_chance(&message("pena", 1)));
    }
    assert!(Command::Join(JoinCommand::new()).draw_chance(&message("x", 1)));
    assert!(Command::Join(JoinCommand::new()).requirement(&message("&join", 1)));
    assert!(!Command::Pena(PenaCommand::new()).requirement(&message("hello", 1)));
}

#[test]
fn odds_and_audio_steps() {
    assert_eq!(PenaCommand::odds(), (3, 100));
    assert_eq!(VanaisaCommand::odds(), (20, 100));
    match SecretCommand::action(true) {
        AudioStep::Play(p) => assert_eq!(p, "./audio/Primogenitor_master-02.mp3"),
        AudioStep::Stop => panic!("expected the track"),
    }
    assert!(matches!(SecretCommand::action(false), AudioStep::Stop));
    match TestCommand::action_given(true, 4) {
        AudioStep::Play(p) => assert_eq!(p, "./audio/mis04.mp3"),
        AudioStep::Stop => panic!("expected a voice line"),
    }
    assert!(matches!(TestCommand::action_given(false, 4), AudioStep::Stop));
    match TestCommand::action(true) {
        AudioStep::Play(p) => assert!(p.starts_with("./audio/mis0") && p.ends_with(".mp3")),
        AudioStep::Stop => panic!("expected a voice line"),
    }
    assert!(matches!(TestCommand::action(false), AudioStep::Stop));
}
