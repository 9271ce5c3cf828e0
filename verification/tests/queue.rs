use speaking_turns::error::TurnError;
use speaking_turns::session::{SessionParts, TemplateApp};
use speaking_turns::speakers::{Order, Speaker, Speakers};
use speaking_turns::speeches::SpeechLog;
use speaking_turns::timespan::Timespan;
use std::collections::VecDeque;

fn speaker(name: &str, category: &str) -> Speaker {
    Speaker::new(name.to_string(), category.to_string())
}

fn trio() -> Speakers {
    let mut speakers = Speakers::new();
    speakers.add_speaker(speaker("Alice", "A"));
    speakers.add_speaker(speaker("Bob", "B"));
    speakers.add_speaker(speaker("Carol", "C"));
    speakers
}

fn line(entries: &[usize]) -> Order {
    Order { queue: entries.iter().copied().collect::<VecDeque<usize>>() }
}

#[test]
fn empty_line_shows_no_one() {
    let speakers = trio();
    let order = Order::new();
    let nobody = speakers.current_speaker(&order);
    assert_eq!(nobody.name, "no one");
    assert_eq!(nobody.category, "");
    assert_eq!(speakers.next_speaker(&order), Speaker::nobody());
}

#[test]
fn one_in_line_has_no_next() {
    let speakers = trio();
    let mut order = Order::new();
    assert_eq!(speakers.speaker_wants_to_speak(2, &mut order), Ok(()));
    assert_eq!(speakers.current_speaker(&order), speaker("Carol", "C"));
    assert_eq!(speakers.next_speaker(&order), Speaker::nobody());
}

#[test]
fn first_enqueued_speaks_first() {
    let speakers = trio();
    let mut order = Order::new();
    for index in [1usize, 2, 0, 1] {
        assert_eq!(speakers.speaker_wants_to_speak(index, &mut order), Ok(()));
        assert_eq!(speakers.current_speaker(&order), speaker("Bob", "B"));
    }
    assert_eq!(speakers.next_speaker(&order), speaker("Carol", "C"));
    assert_eq!(order, line(&[1, 2, 0, 1]));
}

#[test]
fn adding_a_speaker_keeps_the_line() {
    let mut speakers = trio();
    let mut order = Order::new();
    speakers.speaker_wants_to_speak(0, &mut order).unwrap();
    speakers.speaker_wants_to_speak(1, &mut order).unwrap();
    speakers.add_speaker(speaker("Dave", "A"));
    assert_eq!(speakers.len(), 4);
    assert_eq!(speakers.current_speaker(&order), speaker("Alice", "A"));
    assert_eq!(speakers.next_speaker(&order), speaker("Bob", "B"));
    assert_eq!(speakers.get_speaker(3).unwrap(), speaker("Dave", "A"));
}

#[test]
fn same_name_can_register_twice() {
    let mut speakers = Speakers::new();
    speakers.add_speaker(speaker("Alice", "A"));
    speakers.add_speaker(speaker("Alice", "A"));
    assert_eq!(speakers.len(), 2);
}

#[test]
fn unknown_speaker_cannot_join_the_line() {
    let speakers = trio();
    let mut order = line(&[0]);
    assert_eq!(speakers.speaker_wants_to_speak(3, &mut order), Err(TurnError::NoSuchSpeaker));
    assert_eq!(order, line(&[0]));
}

#[test]
fn get_speaker_out_of_range_is_reported() {
    let speakers = trio();
    assert_eq!(speakers.get_speaker(1), Ok(speaker("Bob", "B")));
    assert_eq!(speakers.get_speaker(3), Err(TurnError::NoSuchSpeaker));
    assert_eq!(Speakers::new().get_speaker(0), Err(TurnError::NoSuchSpeaker));
}

#[test]
fn speaker_spoke_on_empty_line_does_nothing() {
    let speakers = trio();
    let mut order = Order::new();
    for _ in 0..5 {
        speakers.speaker_spoke(&mut order);
        assert_eq!(order.len(), 0);
    }
    assert_eq!(order, Order::new());
}

#[test]
fn speaker_spoke_moves_the_line_up() {
    let speakers = trio();
    let mut order = line(&[2, 0, 1]);
    speakers.speaker_spoke(&mut order);
    assert_eq!(order, line(&[0, 1]));
    assert_eq!(speakers.current_speaker(&order), speaker("Alice", "A"));
    assert_eq!(speakers.next_speaker(&order), speaker("Bob", "B"));
    speakers.speaker_spoke(&mut order);
    speakers.speaker_spoke(&mut order);
    speakers.speaker_spoke(&mut order);
    assert_eq!(order.len(), 0);
}

#[test]
fn delete_speaker_purges_and_renumbers() {
    let mut speakers = trio();
    let mut order = line(&[1, 0, 2, 1, 2, 1]);
    assert_eq!(speakers.delete_speaker(1, &mut order), Ok(()));
    assert_eq!(speakers.len(), 2);
    assert_eq!(order, line(&[0, 1, 1]));
    assert_eq!(speakers.current_speaker(&order), speaker("Alice", "A"));
    assert_eq!(speakers.next_speaker(&order), speaker("Carol", "C"));
    assert!(order.is_valid_for(speakers.len()));
}

#[test]
fn delete_last_speaker_shifts_nobody() {
    let mut speakers = trio();
    let mut order = line(&[2, 0, 1, 2]);
    assert_eq!(speakers.delete_speaker(2, &mut order), Ok(()));
    assert_eq!(order, line(&[0, 1]));
}

#[test]
fn delete_only_speaker_empties_the_line() {
    let mut speakers = Speakers::new();
    speakers.add_speaker(speaker("Alice", "A"));
    let mut order = line(&[0, 0]);
    assert_eq!(speakers.delete_speaker(0, &mut order), Ok(()));
    assert_eq!(speakers.len(), 0);
    assert_eq!(order.len(), 0);
    assert_eq!(speakers.current_speaker(&order), Speaker::nobody());
}

#[test]
fn delete_unknown_speaker_changes_nothing() {
    let mut speakers = trio();
    let mut order = line(&[1, 2]);
    assert_eq!(speakers.delete_speaker(3, &mut order), Err(TurnError::NoSuchSpeaker));
    assert_eq!(speakers, trio());
    assert_eq!(order, line(&[1, 2]));
}

#[test]
fn remove_takes_one_entry_by_rank() {
    let mut order = line(&[1, 0, 1, 2]);
    assert_eq!(order.remove(2), Some(1));
    assert_eq!(order, line(&[1, 0, 2]));
    assert_eq!(order.remove(3), None);
    assert_eq!(order, line(&[1, 0, 2]));
    assert_eq!(order.get(0), Some(1));
    assert_eq!(order.get(3), None);
}

#[test]
fn validity_of_a_line() {
    assert!(line(&[]).is_valid_for(0));
    assert!(line(&[0, 1, 1]).is_valid_for(2));
    assert!(!line(&[0, 2, 1]).is_valid_for(2));
    assert!(!line(&[0]).is_valid_for(0));
}

#[test]
fn clones_are_equal() {
    let speakers = trio();
    assert_eq!(speakers.clone(), speakers);
    let order = line(&[2, 1, 1]);
    assert_eq!(order.clone(), order);
}

#[test]
fn session_scenario_alice_then_bob() {
    let mut app = TemplateApp::default();
    app.add_speaker("Alice".to_string(), "A".to_string());
    app.add_speaker("Bob".to_string(), "B".to_string());
    assert_eq!(app.speaker_wants_to_speak(0), Ok(()));
    assert_eq!(app.speaker_wants_to_speak(1), Ok(()));
    assert_eq!(app.current_speaker(), speaker("Alice", "A"));
    assert_eq!(app.next_speaker(), speaker("Bob", "B"));

    app.start_or_stop_at(1_000);
    assert!(app.timespan().is_running());
    app.start_or_stop_at(4_000);
    assert!(!app.timespan().is_running());
    assert_eq!(app.elapsed_at(9_000), 3_000);
    assert!(app.can_commit_at(9_000));
    assert_eq!(app.commit_at(9_000), Ok(()));

    assert_eq!(app.speeches().len(), 1);
    let logged = app.speeches().get(0).unwrap();
    assert_eq!(logged.category, "A");
    assert_eq!(logged.duration, 3_000);
    assert_eq!(app.want_speak(), &line(&[1]));
    assert_eq!(app.current_speaker(), speaker("Bob", "B"));
    assert_eq!(app.next_speaker(), Speaker::nobody());
    assert_eq!(app.timespan(), Timespan::new());
}

#[test]
fn commit_while_running_logs_the_time_shown() {
    let mut app = TemplateApp::default();
    app.add_speaker("Alice".to_string(), "A".to_string());
    app.speaker_wants_to_speak(0).unwrap();
    app.start_or_stop_at(10);
    assert_eq!(app.commit_at(25), Ok(()));
    assert_eq!(app.speeches().get(0).unwrap().duration, 15);
    assert_eq!(app.timespan(), Timespan::new());
    assert_eq!(app.want_speak().len(), 0);
}

#[test]
fn commit_with_zero_elapsed_is_rejected() {
    let mut app = TemplateApp::default();
    app.add_speaker("Alice".to_string(), "A".to_string());
    app.speaker_wants_to_speak(0).unwrap();
    let before = app.to_parts();
    assert!(!app.can_commit_at(77));
    assert_eq!(app.commit_at(77), Err(TurnError::NothingToCommit));
    assert_eq!(app.commit(), Err(TurnError::NothingToCommit));
    assert_eq!(app.speeches().len(), 0);
    assert_eq!(app.to_parts(), before);
}

#[test]
fn commit_with_empty_line_logs_empty_category() {
    let mut app = TemplateApp::default();
    app.start_or_stop_at(0);
    app.start_or_stop_at(5);
    assert_eq!(app.commit_at(5), Ok(()));
    let logged = app.speeches().get(0).unwrap();
    assert_eq!(logged.category, "");
    assert_eq!(logged.duration, 5);
    assert_eq!(app.want_speak().len(), 0);
}

#[test]
fn commit_by_the_wall_clock() {
    let mut app = TemplateApp::default();
    app.add_speaker("Alice".to_string(), "A".to_string());
    app.speaker_wants_to_speak(0).unwrap();
    app.start_or_stop_at(0);
    app.start_or_stop_at(42);
    assert_eq!(app.elapsed(), 42);
    assert_eq!(app.commit(), Ok(()));
    assert_eq!(app.speeches().get(0).unwrap().duration, 42);
    assert_eq!(app.elapsed(), 0);
}

#[test]
fn session_delete_speaker_cascades() {
    let mut app = TemplateApp::default();
    app.add_speaker("Alice".to_string(), "A".to_string());
    app.add_speaker("Bob".to_string(), "B".to_string());
    app.add_speaker("Carol".to_string(), "C".to_string());
    for index in [0usize, 2, 0, 1] {
        app.speaker_wants_to_speak(index).unwrap();
    }
    assert_eq!(app.delete_speaker(0), Ok(()));
    assert_eq!(app.want_speak(), &line(&[1, 0]));
    assert_eq!(app.current_speaker(), speaker("Carol", "C"));
    assert_eq!(app.next_speaker(), speaker("Bob", "B"));
    assert_eq!(app.delete_speaker(2), Err(TurnError::NoSuchSpeaker));
    assert_eq!(app.speaker_wants_to_speak(2), Err(TurnError::NoSuchSpeaker));
}

#[test]
fn session_leave_queue_by_rank() {
    let mut app = TemplateApp::default();
    app.add_speaker("Alice".to_string(), "A".to_string());
    app.add_speaker("Bob".to_string(), "B".to_string());
    for index in [1usize, 0, 1] {
        app.speaker_wants_to_speak(index).unwrap();
    }
    assert_eq!(app.leave_queue(0), Some(1));
    assert_eq!(app.want_speak(), &line(&[0, 1]));
    assert_eq!(app.leave_queue(2), None);
    app.speaker_spoke();
    assert_eq!(app.want_speak(), &line(&[1]));
}

#[test]
fn pending_speaker_is_added() {
    let mut app = TemplateApp::default();
    app.set_new_speaker("Dana".to_string());
    app.set_categorie_new_speaker("D".to_string());
    app.add_new_speaker();
    assert_eq!(app.speakers().get_speaker(0), Ok(speaker("Dana", "D")));
    assert_eq!(app.new_speaker(), "Dana");
    assert_eq!(app.categorie_new_speaker(), "D");
}

#[test]
fn clear_needs_confirmation() {
    let mut app = TemplateApp::default();
    app.add_speaker("Alice".to_string(), "A".to_string());
    app.speaker_wants_to_speak(0).unwrap();
    app.speaker_wants_to_speak(0).unwrap();
    app.start_or_stop_at(0);
    app.commit_at(9).unwrap();
    app.start_or_stop_at(20);
    let before = app.to_parts();
    app.clear(false);
    assert_eq!(app.to_parts(), before);
    app.clear(true);
    assert_eq!(app.speeches().len(), 0);
    assert_eq!(app.timespan(), Timespan::new());
    assert_eq!(app.want_speak(), &line(&[0]));
    assert_eq!(app.speakers().len(), 1);
}

#[test]
fn default_session_is_empty() {
    let app = TemplateApp::default();
    let parts = app.to_parts();
    assert_eq!(parts.timespan, Timespan { running: false, elapsed: 0, started_at: 0 });
    assert_eq!(parts.speeches, SpeechLog::new());
    assert_eq!(parts.want_speak, Order::new());
    assert_eq!(parts.speakers, Speakers::new());
    assert!(parts.categories.is_empty());
    assert_eq!(parts.new_speaker, "");
    assert_eq!(parts.categorie_new_speaker, "");
    assert_eq!(TemplateApp::new(None), app);
}

#[test]
fn session_round_trip_through_parts() {
    let mut app = TemplateApp::default();
    app.set_categories_from_text("A\nB");
    app.add_speaker("Alice".to_string(), "A".to_string());
    app.add_speaker("Bob".to_string(), "B".to_string());
    app.speaker_wants_to_speak(1).unwrap();
    app.speaker_wants_to_speak(0).unwrap();
    app.start_or_stop_at(3);
    app.commit_at(8).unwrap();
    app.start_or_stop_at(11);
    app.set_new_speaker("Carol".to_string());
    app.set_categorie_new_speaker("B".to_string());
    let back = TemplateApp::new(Some(app.to_parts()));
    assert_eq!(back, app);
    assert_eq!(back.to_parts(), app.to_parts());
    assert_eq!(back.timespan(), Timespan { running: true, elapsed: 0, started_at: 11 });
}

#[test]
fn unsound_stored_session_falls_back_to_empty() {
    let parts = SessionParts {
        timespan: Timespan { running: false, elapsed: 5, started_at: 0 },
        speeches: SpeechLog::new(),
        want_speak: line(&[0, 3]),
        speakers: trio(),
        categories: vec!["A".to_string()],
        new_speaker: String::new(),
        categorie_new_speaker: String::new(),
    };
    assert_eq!(TemplateApp::new(Some(parts)), TemplateApp::default());
}
