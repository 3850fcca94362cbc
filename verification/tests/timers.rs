use vanaisa::queue::wait_range;
use vanaisa::voiceline::{after_audio_open, voiceline_number_range, voiceline_step, AudioOpened, AudioStep};
use vanaisa::handler::{activity_name, ready_line, TimerLoopFlag};
use vanaisa::queue::{TickEvent, VoiceLineData, VoiceQueue, MAX_WAIT_SECS, MIN_WAIT_SECS};
use vanaisa::text::decimal_string;
use vanaisa::voiceline::{caption, choose_voiceline, comms_text, ffmpeg_error_text, split_minutes, voiceline_path};

#[test]
fn decimal_rendering() {
    assert_eq!(decimal_string(0), "0");
    assert_eq!(decimal_string(7), "7");
    assert_eq!(decimal_string(10), "10");
    assert_eq!(decimal_string(1234567), "1234567");
    assert_eq!(decimal_string(u64::MAX), u64::MAX.to_string());
}

#[test]
fn voiceline_paths() {
    assert_eq!(voiceline_path(3), "./audio/mis03.mp3");
    assert_eq!(voiceline_path(9), "./audio/mis09.mp3");
    assert_eq!(voiceline_path(12), "./audio/mis12.mp3");
    for _ in 0..100 {
        let (n, path) = choose_voiceline();
        assert!((1..10).contains(&n));
        assert_eq!(path, format!("./audio/mis0{}.mp3", n));
    }
}

#[test]
fn voiceline_numbers_vary() {
    let first = choose_voiceline().0;
    let mut varied = false;
    for _ in 0..500 {
        if choose_voiceline().0 != first {
            varied = true;
        }
    }
    assert!(varied);
}

#[test]
fn captions() {
    assert_eq!(caption(125), "mis see on\n      ||2m 5s||");
    assert_eq!(caption(0), "mis see on\n      ||0m 0s||");
    assert_eq!(caption(59), "mis see on\n      ||0m 59s||");
    assert_eq!(caption(3600), "mis see on\n      ||60m 0s||");
    assert_eq!(split_minutes(125), (2, 5));
    assert_eq!(comms_text(), "(mis see on)");
    assert_eq!(ffmpeg_error_text(), "ffmpeg error");
}

#[test]
fn timer_fires_and_reports_gap() {
    let mut d = VoiceLineData::start(100, 5, 9);
    assert_eq!((d.new_time, d.prev_time, d.time_spent, d.text_channel), (105, 100, 0, 9));
    assert!(!d.is_due(104));
    assert_eq!(d.seconds_left(101), 4);
    assert!(d.is_due(105));
    d.fire(110, 4);
    assert_eq!((d.new_time, d.prev_time, d.time_spent), (114, 105, 10));
    d.fire(120, 3);
    assert_eq!((d.new_time, d.prev_time, d.time_spent), (123, 114, 15));
}

#[test]
fn queue_start_given() {
    let mut q = VoiceQueue::new();
    assert!(q.get(1).is_none());
    let d = q.start_timer_given(1, 50, 1000, 7);
    assert_eq!(d.new_time, 1007);
    let got = q.get(1).unwrap();
    assert_eq!((got.new_time, got.prev_time, got.time_spent, got.text_channel), (1007, 1000, 0, 50));
    q.start_timer_given(1, 51, 2000, 3);
    let got = q.get(1).unwrap();
    assert_eq!((got.new_time, got.prev_time, got.text_channel), (2003, 2000, 51));
}

#[test]
fn queue_random_start() {
    let mut q = VoiceQueue::new();
    let d = q.start_timer(4, 8, 500);
    assert!(d.new_time >= 500 + MIN_WAIT_SECS && d.new_time < 500 + MAX_WAIT_SECS);
    assert_eq!(d.prev_time, 500);
    assert_eq!(d.time_spent, 0);
}

#[test]
fn tick_fires_only_due_timers() {
    let mut q = VoiceQueue::new();
    q.start_timer_given(1, 11, 100, 3);
    q.start_timer_given(2, 22, 100, 14);
    let events = q.tick(105);
    assert_eq!(events.len(), 2);
    let mut seen = vec![];
    for e in &events {
        match e {
            TickEvent::Fired { guild, timer } => {
                assert_eq!(*guild, 1);
                assert_eq!(timer.prev_time, 103);
                assert_eq!(timer.time_spent, 5);
                assert!(timer.new_time >= 108 && timer.new_time < 120);
                seen.push(*guild);
            }
            TickEvent::Waiting { guild, seconds_left } => {
                assert_eq!(*guild, 2);
                assert_eq!(*seconds_left, 9);
                seen.push(*guild);
            }
        }
    }
    seen.sort();
    assert_eq!(seen, vec![1, 2]);
    let g2 = q.get(2).unwrap();
    assert_eq!((g2.new_time, g2.prev_time), (114, 100));
    let again = q.tick(105);
    assert!(again.iter().all(|e| matches!(e, TickEvent::Waiting { .. })));
}

#[test]
fn tick_on_empty_queue() {
    let mut q = VoiceQueue::new();
    assert!(q.tick(10).is_empty());
}

#[test]
fn ready_and_flag() {
    assert_eq!(ready_line("vanaisa", 1234), "vanaisa#1234 running");
    assert_eq!(activity_name(), "vanaisa");
    let mut flag = TimerLoopFlag::new();
    assert!(flag.claim());
    assert!(!flag.claim());
    assert!(!flag.claim());
}

#[test]
fn first_voiceline_after_start() {
    let mut q = VoiceQueue::new();
    q.start_timer_given(3, 30, 100, 5);
    let early = q.tick(104);
    assert_eq!(early.len(), 1);
    assert!(matches!(early[0], TickEvent::Waiting { guild: 3, seconds_left: 1 }));
    let due = q.tick(105);
    match &due[0] {
        TickEvent::Fired { guild, timer } => {
            assert_eq!(*guild, 3);
            assert_eq!(timer.time_spent, 5);
            assert_eq!(timer.prev_time, 105);
            assert_eq!(timer.text_channel, 30);
        }
        TickEvent::Waiting { .. } => panic!("the timer was due"),
    }
}

#[test]
fn late_tick_reports_gap_from_due_time() {
    let mut q = VoiceQueue::new();
    q.start_timer_given(8, 1, 1000, 10);
    q.tick(1030);
    let t = q.get(8).unwrap();
    assert_eq!((t.prev_time, t.time_spent), (1010, 30));
    let next_due = t.new_time;
    assert!(next_due >= 1033 && next_due < 1045);
    q.tick(next_due + 2);
    let t2 = q.get(8).unwrap();
    assert_eq!((t2.prev_time, t2.time_spent), (next_due, next_due + 2 - 1010));
}

#[test]
fn fired_timers_stay_behind_the_clock() {
    let mut q = VoiceQueue::new();
    q.start_timer_given(1, 1, 50, 3);
    q.start_timer_given(2, 2, 50, 14);
    q.tick(60);
    for g in [1u64, 2] {
        let t = q.get(g).unwrap();
        assert!(t.prev_time <= 60);
        assert!(t.prev_time < t.new_time);
    }
    let t1 = q.get(1).unwrap();
    assert!(t1.new_time - 60 >= 3 && t1.new_time - 60 < 15);
}

#[test]
fn audio_open_and_ranges() {
    assert!(matches!(after_audio_open(true), AudioOpened::Play));
    match after_audio_open(false) {
        AudioOpened::Report(t) => assert_eq!(t, "ffmpeg error"),
        AudioOpened::Play => panic!("expected a report"),
    }
    assert_eq!(wait_range(), (3, 15));
    assert_eq!(voiceline_number_range(), (1, 10));
    assert!(matches!(voiceline_step(false), AudioStep::Stop));
    assert!(matches!(voiceline_step(true), AudioStep::Play(_)));
}
