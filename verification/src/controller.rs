//! The session as a state machine: what the user does comes in as an event,
//! the session moves to its next state, and what is left to do outside (ask
//! for a confirmation, write a file) goes out as an effect.

use crate::categories::split_lines;
use crate::clock::wall_clock_nanos;
use crate::error::TurnError;
use crate::session::{SessionView, TemplateApp};
use crate::speakers::{purge_keeps_every_speaker, purged, SpeakerView};
use crate::speeches::{export_of, SpeechView};
use vstd::prelude::*;

verus! {

/// What the user did.
#[derive(Debug, PartialEq, Eq)]
pub enum Event {
    /// The stopwatch's start/stop button.
    StartOrStop,
    /// Log the speech under way.
    Commit,
    /// The speaker at this position of the register joins the line.
    WantsToSpeak(usize),
    /// The entry at this rank of the line leaves it.
    LeaveQueue(usize),
    /// The speaker at this position of the register is struck.
    DeleteSpeaker(usize),
    /// Register a speaker under the pending name and category.
    AddSpeaker,
    /// The pending name was edited.
    NewSpeakerName(String),
    /// The pending category was chosen.
    NewSpeakerCategory(String),
    /// The speech at this position of the log is struck.
    RemoveSpeech(usize),
    /// The speech at this position of the log counts for this category.
    ReassignCategory(usize, String),
    /// The text that lists the categories was edited.
    CategoriesEdited(String),
    /// The log is to be written to a file.
    ExportRequested,
    /// Stopwatch and log are to be wiped; nothing happens before the user
    /// has confirmed.
    ClearRequested,
    /// The user's answer to the request for confirmation.
    ClearAnswered(bool),
}

/// An event, to the contracts.
pub enum EventView {
    StartOrStop,
    Commit,
    WantsToSpeak(usize),
    LeaveQueue(usize),
    DeleteSpeaker(usize),
    AddSpeaker,
    NewSpeakerName(Seq<char>),
    NewSpeakerCategory(Seq<char>),
    RemoveSpeech(usize),
    ReassignCategory(usize, Seq<char>),
    CategoriesEdited(Seq<char>),
    ExportRequested,
    ClearRequested,
    ClearAnswered(bool),
}

impl View for Event {
    type V = EventView;

    open spec fn view(&self) -> EventView {
        match *self {
            Event::StartOrStop => EventView::StartOrStop,
            Event::Commit => EventView::Commit,
            Event::WantsToSpeak(index) => EventView::WantsToSpeak(index),
            Event::LeaveQueue(rank) => EventView::LeaveQueue(rank),
            Event::DeleteSpeaker(index) => EventView::DeleteSpeaker(index),
            Event::AddSpeaker => EventView::AddSpeaker,
            Event::NewSpeakerName(name) => EventView::NewSpeakerName(name@),
            Event::NewSpeakerCategory(category) => EventView::NewSpeakerCategory(category@),
            Event::RemoveSpeech(position) => EventView::RemoveSpeech(position),
            Event::ReassignCategory(position, category) => EventView::ReassignCategory(
                position,
                category@,
            ),
            Event::CategoriesEdited(text) => EventView::CategoriesEdited(text@),
            Event::ExportRequested => EventView::ExportRequested,
            Event::ClearRequested => EventView::ClearRequested,
            Event::ClearAnswered(confirmed) => EventView::ClearAnswered(confirmed),
        }
    }
}

/// What is left to do outside the session once an event was handled.
#[derive(Debug, PartialEq, Eq)]
pub enum Effect {
    Nothing,
    /// Ask the user to confirm the wipe, and come back with the answer.
    AskToConfirmClear,
    /// Write this text to a file of the user's choice.
    WriteExport(String),
}

/// An effect, to the contracts.
pub enum EffectView {
    Nothing,
    AskToConfirmClear,
    WriteExport(Seq<char>),
}

impl View for Effect {
    type V = EffectView;

    open spec fn view(&self) -> EffectView {
        match *self {
            Effect::Nothing => EffectView::Nothing,
            Effect::AskToConfirmClear => EffectView::AskToConfirmClear,
            Effect::WriteExport(text) => EffectView::WriteExport(text@),
        }
    }
}

/// What handling `event` at the clock reading `now` answers: the effect, or
/// why the event was declined.
pub open spec fn outcome(session: SessionView, event: EventView, now: u64) -> Result<
    EffectView,
    TurnError,
> {
    match event {
        EventView::Commit => if session.can_commit(now) {
            Ok(EffectView::Nothing)
        } else {
            Err(TurnError::NothingToCommit)
        },
        EventView::WantsToSpeak(index) | EventView::DeleteSpeaker(index) => if index
            < session.speakers.len() {
            Ok(EffectView::Nothing)
        } else {
            Err(TurnError::NoSuchSpeaker)
        },
        EventView::RemoveSpeech(position) | EventView::ReassignCategory(position, _) => if position
            < session.speeches.len() {
            Ok(EffectView::Nothing)
        } else {
            Err(TurnError::NoSuchSpeech)
        },
        EventView::ExportRequested => Ok(EffectView::WriteExport(export_of(session.speeches))),
        EventView::ClearRequested => Ok(EffectView::AskToConfirmClear),
        _ => Ok(EffectView::Nothing),
    }
}

/// The session after `event` was handled at the clock reading `now`. A
/// declined event leaves it as it was.
pub open spec fn after(session: SessionView, event: EventView, now: u64) -> SessionView {
    if outcome(session, event, now).is_err() {
        session
    } else {
        match event {
            EventView::StartOrStop => SessionView {
                timespan: session.timespan.toggled_when(now),
                ..session
            },
            EventView::Commit => session.committed(now),
            EventView::WantsToSpeak(index) => SessionView {
                want_speak: session.want_speak.push(index),
                ..session
            },
            EventView::LeaveQueue(rank) => if rank < session.want_speak.len() {
                SessionView { want_speak: session.want_speak.remove(rank as int), ..session }
            } else {
                session
            },
            EventView::DeleteSpeaker(index) => SessionView {
                speakers: session.speakers.remove(index as int),
                want_speak: purged(session.want_speak, index),
                ..session
            },
            EventView::AddSpeaker => SessionView {
                speakers: session.speakers.push(
                    SpeakerView {
                        name: session.new_speaker,
                        category: session.categorie_new_speaker,
                    },
                ),
                ..session
            },
            EventView::NewSpeakerName(name) => SessionView { new_speaker: name, ..session },
            EventView::NewSpeakerCategory(category) => SessionView {
                categorie_new_speaker: category,
                ..session
            },
            EventView::RemoveSpeech(position) => SessionView {
                speeches: session.speeches.remove(position as int),
                ..session
            },
            EventView::ReassignCategory(position, category) => SessionView {
                speeches: session.speeches.update(
                    position as int,
                    SpeechView { duration: session.speeches[position as int].duration, category },
                ),
                ..session
            },
            EventView::CategoriesEdited(text) => SessionView {
                categories: split_lines(text),
                ..session
            },
            EventView::ExportRequested => session,
            EventView::ClearRequested => session,
            EventView::ClearAnswered(confirmed) => session.after_clear(confirmed),
        }
    }
}

/// The answer of a handled event, to the contracts.
pub open spec fn answer_view(answer: Result<Effect, TurnError>) -> Result<EffectView, TurnError> {
    match answer {
        Ok(effect) => Ok(effect@),
        Err(why) => Err(why),
    }
}

fn done(step: Result<(), TurnError>) -> (answer: Result<Effect, TurnError>)
    ensures
        answer_view(answer) == match step {
            Ok(_) => Ok::<EffectView, TurnError>(EffectView::Nothing),
            Err(why) => Err::<EffectView, TurnError>(why),
        },
{
    match step {
        Ok(_) => Ok(Effect::Nothing),
        Err(why) => Err(why),
    }
}

impl TemplateApp {
    /// Handles what the user did, at the clock reading `now`: the session
    /// moves to its next state, and the answer says what is left to do
    /// outside, or why the event was declined. A declined event changes
    /// nothing.
    pub fn handle_at(&mut self, event: Event, now: u64) -> (answer: Result<Effect, TurnError>)
        requires
            old(self).wf(),
        ensures
            final(self).wf(),
            final(self)@ == after(old(self)@, event@, now),
            answer_view(answer) == outcome(old(self)@, event@, now),
    {
        match event {
            Event::StartOrStop => {
                self.start_or_stop_at(now);
                Ok(Effect::Nothing)
            },
            Event::Commit => done(self.commit_at(now)),
            Event::WantsToSpeak(index) => done(self.speaker_wants_to_speak(index)),
            Event::LeaveQueue(rank) => {
                let _ = self.leave_queue(rank);
                Ok(Effect::Nothing)
            },
            Event::DeleteSpeaker(index) => done(self.delete_speaker(index)),
            Event::AddSpeaker => {
                self.add_new_speaker();
                Ok(Effect::Nothing)
            },
            Event::NewSpeakerName(name) => {
                self.set_new_speaker(name);
                Ok(Effect::Nothing)
            },
            Event::NewSpeakerCategory(category) => {
                self.set_categorie_new_speaker(category);
                Ok(Effect::Nothing)
            },
            Event::RemoveSpeech(position) => done(self.remove_speech(position)),
            Event::ReassignCategory(position, category) => done(
                self.reassign_category(position, category),
            ),
            Event::CategoriesEdited(text) => {
                self.set_categories_from_text(text.as_str());
                Ok(Effect::Nothing)
            },
            Event::ExportRequested => Ok(Effect::WriteExport(self.export_speeches_to_csv_file())),
            Event::ClearRequested => Ok(Effect::AskToConfirmClear),
            Event::ClearAnswered(confirmed) => {
                self.clear(confirmed);
                Ok(Effect::Nothing)
            },
        }
    }

    /// Handles what the user did now, by the wall clock: what `handle_at`
    /// does at some clock reading.
    pub fn handle(&mut self, event: Event) -> (answer: Result<Effect, TurnError>)
        requires
            old(self).wf(),
        ensures
            final(self).wf(),
            exists|now: u64|
                final(self)@ == #[trigger] after(old(self)@, event@, now) && answer_view(answer)
                    == outcome(old(self)@, event@, now),
    {
        let now: u64 = wall_clock_nanos();
        let ghost seen = event@;
        let answer = self.handle_at(event, now);
        assert(self@ == after(old(self)@, seen, now) && answer_view(answer) == outcome(
            old(self)@,
            seen,
            now,
        ));
        answer
    }
}

/// Whatever the user does, and whenever, a session whose line names
/// registered speakers only stays so.
pub proof fn every_event_keeps_the_line_sound(session: SessionView, event: EventView, now: u64)
    requires
        session.wf(),
    ensures
        after(session, event, now).wf(),
{
    match event {
        EventView::DeleteSpeaker(index) => {
            if index < session.speakers.len() {
                purge_keeps_every_speaker(session.speakers, session.want_speak, index);
            }
        },
        _ => {},
    }
}

/// A declined event changes nothing.
pub proof fn declined_event_changes_nothing(session: SessionView, event: EventView, now: u64)
    ensures
        outcome(session, event, now).is_err() ==> after(session, event, now) == session,
{
}

/// When an event is declined: a commit, exactly while the stopwatch shows
/// zero; an event about a speaker, exactly where the register has no such
/// position; an event about a speech, exactly where the log has none.
pub proof fn when_events_are_declined(
    session: SessionView,
    position: usize,
    category: Seq<char>,
    now: u64,
)
    ensures
        outcome(session, EventView::Commit, now).is_err() <==> session.timespan.elapsed_when(now)
            == 0,
        outcome(session, EventView::WantsToSpeak(position), now).is_err() <==> position
            >= session.speakers.len(),
        outcome(session, EventView::DeleteSpeaker(position), now).is_err() <==> position
            >= session.speakers.len(),
        outcome(session, EventView::RemoveSpeech(position), now).is_err() <==> position
            >= session.speeches.len(),
        outcome(session, EventView::ReassignCategory(position, category), now).is_err()
            <==> position >= session.speeches.len(),
{
}

} // verus!
