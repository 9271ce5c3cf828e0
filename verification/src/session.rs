//! The session: register, line, stopwatch and log, moved together.
//!
//! The one rule that ties them is that every entry of the line is a
//! registered speaker. A session is only ever built and changed through the
//! functions here, and each of them keeps that rule.

use crate::categories::{categories_from_text, categories_to_text, join_lines, split_lines};
use crate::clock::wall_clock_nanos;
use crate::error::TurnError;
use crate::speakers::{all_below, purged, speaker_at_rank, Order, Speaker, SpeakerView, Speakers};
use crate::speeches::{count_of, export_of, total_of, SpeechLog, SpeechView};
use crate::timespan::Timespan;
use vstd::prelude::*;

verus! {

/// What a session is, to the contracts.
pub struct SessionView {
    pub timespan: Timespan,
    pub speeches: Seq<SpeechView>,
    pub want_speak: Seq<usize>,
    pub speakers: Seq<SpeakerView>,
    pub categories: Seq<Seq<char>>,
    pub new_speaker: Seq<char>,
    pub categorie_new_speaker: Seq<char>,
}

impl SessionView {
    /// Every entry of the line is a registered speaker.
    pub open spec fn wf(self) -> bool {
        all_below(self.want_speak, self.speakers.len())
    }

    /// The session that a meeting starts with: nobody registered, nobody
    /// waiting, nothing logged, no category, the stopwatch at zero.
    pub open spec fn empty() -> SessionView {
        SessionView {
            timespan: Timespan::zero(),
            speeches: Seq::empty(),
            want_speak: Seq::empty(),
            speakers: Seq::empty(),
            categories: Seq::empty(),
            new_speaker: Seq::empty(),
            categorie_new_speaker: Seq::empty(),
        }
    }

    /// The session to start with, given what was kept of the last one: that
    /// one where its line names registered speakers only, the empty one
    /// where nothing was kept or what was kept is not sound.
    pub open spec fn restored(stored: Option<SessionView>) -> SessionView {
        match stored {
            Some(kept) => if kept.wf() {
                kept
            } else {
                SessionView::empty()
            },
            None => SessionView::empty(),
        }
    }

    /// Who speaks now.
    pub open spec fn current(self) -> SpeakerView {
        speaker_at_rank(self.speakers, self.want_speak, 0)
    }

    /// The session after the speech under way was logged at `now`: the log
    /// has one more speech, as long as the stopwatch showed and in the
    /// category of who spoke; the head of the line has left it; the
    /// stopwatch is at zero.
    pub open spec fn committed(self, now: u64) -> SessionView {
        SessionView {
            timespan: Timespan::zero(),
            speeches: self.speeches.push(
                SpeechView {
                    duration: self.timespan.elapsed_when(now),
                    category: self.current().category,
                },
            ),
            want_speak: if self.want_speak.len() > 0 {
                self.want_speak.drop_first()
            } else {
                self.want_speak
            },
            ..self
        }
    }

    /// Whether there is a speech to log at `now`: the stopwatch shows more
    /// than zero.
    pub open spec fn can_commit(self, now: u64) -> bool {
        self.timespan.elapsed_when(now) > 0
    }

    /// The session after an attempt to log the speech at `now`: all of the
    /// commit where there is a speech to log, and no change where not.
    pub open spec fn after_commit_attempt(self, now: u64) -> SessionView {
        if self.can_commit(now) {
            self.committed(now)
        } else {
            self
        }
    }

    /// The session after a request to wipe the stopwatch and the log, which
    /// acts only where it was confirmed.
    pub open spec fn after_clear(self, confirmed: bool) -> SessionView {
        if confirmed {
            SessionView { timespan: Timespan::zero(), speeches: Seq::empty(), ..self }
        } else {
            self
        }
    }
}

/// The texts of a list of strings.
pub open spec fn texts(list: Seq<String>) -> Seq<Seq<char>> {
    list.map_values(|s: String| s@)
}

/// A session laid out as plain parts, as it is kept between two runs. The
/// parts are free: the line may name speakers that the register lacks.
#[derive(Debug, PartialEq, Eq)]
pub struct SessionParts {
    pub timespan: Timespan,
    pub speeches: SpeechLog,
    pub want_speak: Order,
    pub speakers: Speakers,
    pub categories: Vec<String>,
    pub new_speaker: String,
    pub categorie_new_speaker: String,
}

impl View for SessionParts {
    type V = SessionView;

    open spec fn view(&self) -> SessionView {
        SessionView {
            timespan: self.timespan,
            speeches: self.speeches@,
            want_speak: self.want_speak@,
            speakers: self.speakers@,
            categories: texts(self.categories@),
            new_speaker: self.new_speaker@,
            categorie_new_speaker: self.categorie_new_speaker@,
        }
    }
}

/// A copy of a list of strings.
fn clone_texts(list: &Vec<String>) -> (copy: Vec<String>)
    ensures
        copy@ == list@,
{
    let mut copy: Vec<String> = Vec::new();
    let n: usize = list.len();
    let mut at: usize = 0;
    while at < n
        invariant
            at <= n,
            n == list@.len(),
            copy@ == list@.take(at as int),
        decreases n - at,
    {
        copy.push(list[at].clone());
        assert(copy@ =~= list@.take(at + 1));
        at += 1;
    }
    assert(list@.take(n as int) =~= list@);
    copy
}

/// A meeting's session.
#[derive(Debug, PartialEq, Eq)]
pub struct TemplateApp {
    timespan: Timespan,
    speeches: SpeechLog,
    want_speak: Order,
    speakers: Speakers,
    categories: Vec<String>,
    new_speaker: String,
    categorie_new_speaker: String,
}

impl View for TemplateApp {
    type V = SessionView;

    closed spec fn view(&self) -> SessionView {
        SessionView {
            timespan: self.timespan,
            speeches: self.speeches@,
            want_speak: self.want_speak@,
            speakers: self.speakers@,
            categories: texts(self.categories@),
            new_speaker: self.new_speaker@,
            categorie_new_speaker: self.categorie_new_speaker@,
        }
    }
}

impl Default for TemplateApp {
    fn default() -> (app: TemplateApp)
        ensures
            app@ == SessionView::empty(),
            app.wf(),
    {
        let app = TemplateApp {
            timespan: Timespan::new(),
            speeches: SpeechLog::new(),
            want_speak: Order::new(),
            speakers: Speakers::new(),
            categories: Vec::new(),
            new_speaker: String::new(),
            categorie_new_speaker: String::new(),
        };
        assert(app@.categories =~= Seq::<Seq<char>>::empty());
        app
    }
}

impl TemplateApp {
    /// Every entry of the line is a registered speaker.
    pub open spec fn wf(&self) -> bool {
        self@.wf()
    }

    /// The session to start with: the one that was kept, where there is one
    /// and its line names registered speakers only; the empty one where
    /// nothing was kept or what was kept is not sound.
    pub fn new(stored: Option<SessionParts>) -> (app: TemplateApp)
        ensures
            app.wf(),
            app@ == SessionView::restored(
                match stored {
                    Some(parts) => Some(parts@),
                    None => None,
                },
            ),
    {
        match stored {
            Some(parts) => {
                if parts.want_speak.is_valid_for(parts.speakers.len()) {
                    TemplateApp {
                        timespan: parts.timespan,
                        speeches: parts.speeches,
                        want_speak: parts.want_speak,
                        speakers: parts.speakers,
                        categories: parts.categories,
                        new_speaker: parts.new_speaker,
                        categorie_new_speaker: parts.categorie_new_speaker,
                    }
                } else {
                    TemplateApp::default()
                }
            },
            None => TemplateApp::default(),
        }
    }

    /// The session laid out as plain parts, to be kept.
    pub fn to_parts(&self) -> (parts: SessionParts)
        ensures
            parts@ == self@,
    {
        SessionParts {
            timespan: self.timespan,
            speeches: self.speeches.clone(),
            want_speak: self.want_speak.clone(),
            speakers: self.speakers.clone(),
            categories: clone_texts(&self.categories),
            new_speaker: self.new_speaker.clone(),
            categorie_new_speaker: self.categorie_new_speaker.clone(),
        }
    }

    pub fn timespan(&self) -> (timespan: Timespan)
        ensures
            timespan == self@.timespan,
    {
        self.timespan
    }

    pub fn speeches(&self) -> (speeches: &SpeechLog)
        ensures
            speeches@ == self@.speeches,
    {
        &self.speeches
    }

    pub fn want_speak(&self) -> (order: &Order)
        ensures
            order@ == self@.want_speak,
    {
        &self.want_speak
    }

    pub fn speakers(&self) -> (speakers: &Speakers)
        ensures
            speakers@ == self@.speakers,
    {
        &self.speakers
    }

    pub fn categories(&self) -> (categories: &Vec<String>)
        ensures
            texts(categories@) == self@.categories,
    {
        &self.categories
    }

    pub fn new_speaker(&self) -> (name: &String)
        ensures
            name@ == self@.new_speaker,
    {
        &self.new_speaker
    }

    pub fn categorie_new_speaker(&self) -> (category: &String)
        ensures
            category@ == self@.categorie_new_speaker,
    {
        &self.categorie_new_speaker
    }

    /// Sets the name that the next added speaker will carry.
    pub fn set_new_speaker(&mut self, name: String)
        ensures
            final(self)@ == (SessionView { new_speaker: name@, ..old(self)@ }),
    {
        self.new_speaker = name;
    }

    /// Sets the category that the next added speaker will carry.
    pub fn set_categorie_new_speaker(&mut self, category: String)
        ensures
            final(self)@ == (SessionView { categorie_new_speaker: category@, ..old(self)@ }),
    {
        self.categorie_new_speaker = category;
    }

    /// Replaces the list of categories. Any text is a category, the empty
    /// one too, and speeches logged under other categories keep them.
    pub fn set_categories(&mut self, categories: Vec<String>)
        ensures
            final(self)@ == (SessionView { categories: texts(categories@), ..old(self)@ }),
    {
        self.categories = categories;
    }

    /// Replaces the list of categories by the lines of `text`, one category
    /// to a line; an empty line is an empty category.
    pub fn set_categories_from_text(&mut self, text: &str)
        ensures
            final(self)@ == (SessionView { categories: split_lines(text@), ..old(self)@ }),
    {
        self.categories = categories_from_text(text);
    }

    /// The list of categories as text, one to a line.
    pub fn categories_text(&self) -> (text: String)
        ensures
            text@ == join_lines(self@.categories),
    {
        categories_to_text(&self.categories)
    }

    /// Registers a speaker with the given name and category.
    pub fn add_speaker(&mut self, name: String, category: String)
        ensures
            final(self)@ == (SessionView {
                speakers: old(self)@.speakers.push(SpeakerView { name: name@, category: category@ }),
                ..old(self)@
            }),
            old(self).wf() ==> final(self).wf(),
    {
        self.speakers.add_speaker(Speaker::new(name, category));
    }

    /// Registers a speaker with the name and category that were set for the
    /// next one, which stay set.
    pub fn add_new_speaker(&mut self)
        ensures
            final(self)@ == (SessionView {
                speakers: old(self)@.speakers.push(
                    SpeakerView {
                        name: old(self)@.new_speaker,
                        category: old(self)@.categorie_new_speaker,
                    },
                ),
                ..old(self)@
            }),
            old(self).wf() ==> final(self).wf(),
    {
        let name = self.new_speaker.clone();
        let category = self.categorie_new_speaker.clone();
        self.add_speaker(name, category);
    }

    /// Puts the speaker at `index` at the end of the line; declines with
    /// `NoSuchSpeaker`, changing nothing, where there is none.
    pub fn speaker_wants_to_speak(&mut self, index: usize) -> (done: Result<(), TurnError>)
        ensures
            index < old(self)@.speakers.len() ==> done.is_ok() && final(self)@ == (SessionView {
                want_speak: old(self)@.want_speak.push(index),
                ..old(self)@
            }),
            index >= old(self)@.speakers.len() ==> done == Err::<(), TurnError>(
                TurnError::NoSuchSpeaker,
            ) && final(self)@ == old(self)@,
            old(self).wf() ==> final(self).wf(),
    {
        self.speakers.speaker_wants_to_speak(index, &mut self.want_speak)
    }

    /// Takes the entry at `rank` out of the line, and that entry only: other
    /// entries for the same speaker stay. Hands back the speaker's position
    /// in the register; `None`, changing nothing, where the line is shorter.
    pub fn leave_queue(&mut self, rank: usize) -> (taken: Option<usize>)
        ensures
            rank < old(self)@.want_speak.len() ==> taken == Some(
                old(self)@.want_speak[rank as int],
            ) && final(self)@ == (SessionView {
                want_speak: old(self)@.want_speak.remove(rank as int),
                ..old(self)@
            }),
            rank >= old(self)@.want_speak.len() ==> taken.is_none() && final(self)@ == old(self)@,
            old(self).wf() ==> final(self).wf(),
    {
        self.want_speak.remove(rank)
    }

    /// Strikes the speaker at `index` from the register and every entry for
    /// that speaker from the line; the entries for the speakers behind follow
    /// them to their new positions. Declines with `NoSuchSpeaker`, changing
    /// nothing, where there is no such speaker.
    pub fn delete_speaker(&mut self, index: usize) -> (done: Result<(), TurnError>)
        ensures
            index < old(self)@.speakers.len() ==> done.is_ok() && final(self)@ == (SessionView {
                speakers: old(self)@.speakers.remove(index as int),
                want_speak: purged(old(self)@.want_speak, index),
                ..old(self)@
            }),
            index >= old(self)@.speakers.len() ==> done == Err::<(), TurnError>(
                TurnError::NoSuchSpeaker,
            ) && final(self)@ == old(self)@,
            old(self).wf() ==> final(self).wf(),
    {
        self.speakers.delete_speaker(index, &mut self.want_speak)
    }

    /// The speaker whose turn it is; the stand-in named "no one", with an
    /// empty category, where the line is empty.
    pub fn current_speaker(&self) -> (speaker: Speaker)
        requires
            self.wf(),
        ensures
            speaker@ == self@.current(),
    {
        self.speakers.current_speaker(&self.want_speak)
    }

    /// The speaker second in line; the stand-in where fewer than two wait.
    pub fn next_speaker(&self) -> (speaker: Speaker)
        requires
            self.wf(),
        ensures
            speaker@ == speaker_at_rank(self@.speakers, self@.want_speak, 1),
    {
        self.speakers.next_speaker(&self.want_speak)
    }

    /// The head of the line has spoken and leaves it; on an empty line
    /// nothing happens.
    pub fn speaker_spoke(&mut self)
        ensures
            final(self)@ == (SessionView {
                want_speak: if old(self)@.want_speak.len() > 0 {
                    old(self)@.want_speak.drop_first()
                } else {
                    old(self)@.want_speak
                },
                ..old(self)@
            }),
            old(self).wf() ==> final(self).wf(),
    {
        self.speakers.speaker_spoke(&mut self.want_speak);
    }

    /// Presses the stopwatch's start/stop button at the clock reading `now`.
    pub fn start_or_stop_at(&mut self, now: u64)
        ensures
            final(self)@ == (SessionView {
                timespan: old(self)@.timespan.toggled_when(now),
                ..old(self)@
            }),
    {
        self.timespan.start_or_stop_at(now);
    }

    /// Presses the stopwatch's start/stop button now, by the wall clock.
    pub fn start_or_stop(&mut self)
        ensures
            exists|now: u64|
                final(self)@ == (SessionView {
                    timespan: #[trigger] old(self)@.timespan.toggled_when(now),
                    ..old(self)@
                }),
            final(self)@.timespan.running == !old(self)@.timespan.running,
    {
        let now: u64 = wall_clock_nanos();
        self.timespan.start_or_stop_at(now);
        assert(self@ == (SessionView {
            timespan: old(self)@.timespan.toggled_when(now),
            ..old(self)@
        }));
    }

    /// What the stopwatch shows at the clock reading `now`.
    pub fn elapsed_at(&self, now: u64) -> (shown: u64)
        ensures
            shown == self@.timespan.elapsed_when(now),
    {
        self.timespan.elapsed_at(now)
    }

    /// What the stopwatch shows now, by the wall clock.
    pub fn elapsed(&self) -> (shown: u64)
        ensures
            exists|now: u64| shown == #[trigger] self@.timespan.elapsed_when(now),
            !self@.timespan.running ==> shown == self@.timespan.elapsed,
    {
        let now: u64 = wall_clock_nanos();
        let shown: u64 = self.timespan.elapsed_at(now);
        assert(shown == self@.timespan.elapsed_when(now));
        shown
    }

    /// Whether there is a speech to log at the clock reading `now`.
    pub fn can_commit_at(&self, now: u64) -> (ready: bool)
        ensures
            ready == self@.can_commit(now),
    {
        self.timespan.elapsed_at(now) > 0
    }

    /// Logs the speech under way, at the clock reading `now`: the log gets a
    /// speech as long as the stopwatch shows, in the category of who speaks;
    /// the head of the line leaves it; the stopwatch goes back to zero. All
    /// of it happens or none: where the stopwatch shows zero the commit is
    /// declined with `NothingToCommit` and the session stays as it was.
    pub fn commit_at(&mut self, now: u64) -> (done: Result<(), TurnError>)
        requires
            old(self).wf(),
        ensures
            final(self).wf(),
            old(self)@.can_commit(now) ==> done.is_ok() && final(self)@ == old(self)@.committed(
                now,
            ),
            !old(self)@.can_commit(now) ==> done == Err::<(), TurnError>(
                TurnError::NothingToCommit,
            ) && final(self)@ == old(self)@,
    {
        let shown: u64 = self.timespan.elapsed_at(now);
        if shown == 0 {
            return Err(TurnError::NothingToCommit);
        }
        let speaker = self.speakers.current_speaker(&self.want_speak);
        self.speeches.record(shown, speaker.category);
        self.timespan.reset();
        self.speakers.speaker_spoke(&mut self.want_speak);
        Ok(())
    }

    /// Logs the speech under way now, by the wall clock: what `commit_at`
    /// does at some clock reading.
    pub fn commit(&mut self) -> (done: Result<(), TurnError>)
        requires
            old(self).wf(),
        ensures
            final(self).wf(),
            exists|now: u64|
                final(self)@ == #[trigger] old(self)@.after_commit_attempt(now) && (done.is_ok()
                    <==> old(self)@.can_commit(now)),
            done.is_err() ==> done == Err::<(), TurnError>(TurnError::NothingToCommit)
                && final(self)@ == old(self)@,
            !old(self)@.timespan.running ==> final(self)@ == old(self)@.after_commit_attempt(0),
    {
        let now: u64 = wall_clock_nanos();
        let done = self.commit_at(now);
        assert(self@ == old(self)@.after_commit_attempt(now));
        done
    }

    /// Strikes the speech at `position` from the log; declines with
    /// `NoSuchSpeech`, changing nothing, where the log is shorter.
    pub fn remove_speech(&mut self, position: usize) -> (done: Result<(), TurnError>)
        ensures
            position < old(self)@.speeches.len() ==> done.is_ok() && final(self)@ == (SessionView {
                speeches: old(self)@.speeches.remove(position as int),
                ..old(self)@
            }),
            position >= old(self)@.speeches.len() ==> done == Err::<(), TurnError>(
                TurnError::NoSuchSpeech,
            ) && final(self)@ == old(self)@,
    {
        match self.speeches.remove(position) {
            Ok(_) => Ok(()),
            Err(e) => Err(e),
        }
    }

    /// Counts the speech at `position` for `category` from now on; declines
    /// with `NoSuchSpeech`, changing nothing, where the log is shorter. The
    /// category need not be in the list of categories.
    pub fn reassign_category(&mut self, position: usize, category: String) -> (done: Result<
        (),
        TurnError,
    >)
        ensures
            position < old(self)@.speeches.len() ==> done.is_ok() && final(self)@ == (SessionView {
                speeches: old(self)@.speeches.update(
                    position as int,
                    SpeechView {
                        duration: old(self)@.speeches[position as int].duration,
                        category: category@,
                    },
                ),
                ..old(self)@
            }),
            position >= old(self)@.speeches.len() ==> done == Err::<(), TurnError>(
                TurnError::NoSuchSpeech,
            ) && final(self)@ == old(self)@,
    {
        self.speeches.reassign_category(position, category)
    }

    /// Wipes the stopwatch and the log where the user confirmed it, and
    /// leaves the session untouched where not. Register and line stay.
    pub fn clear(&mut self, confirmed: bool)
        ensures
            final(self)@ == old(self)@.after_clear(confirmed),
    {
        if confirmed {
            self.timespan.reset();
            self.speeches.clear();
        }
    }

    /// The time spoken in `category`, in nanoseconds.
    pub fn total_for(&self, category: &String) -> (total: u128)
        ensures
            total == total_of(self@.speeches, category@),
    {
        self.speeches.total_for(category)
    }

    /// The number of speeches in `category`.
    pub fn count_for(&self, category: &String) -> (count: usize)
        ensures
            count == count_of(self@.speeches, category@),
    {
        self.speeches.count_for(category)
    }

    /// What the file that exports the speeches holds: one line for each
    /// speech of the log. Writing the file is the caller's part.
    pub fn export_speeches_to_csv_file(&self) -> (text: String)
        ensures
            text@ == export_of(self@.speeches),
    {
        self.speeches.export_as_text()
    }
}

/// A sound session that was kept comes back as it was.
pub proof fn kept_session_comes_back(session: SessionView)
    requires
        session.wf(),
    ensures
        SessionView::restored(Some(session)) == session,
{
}

/// Whatever was kept, the session to start with is sound; with nothing
/// kept, or something unsound, it is the empty one.
pub proof fn restored_session_is_sound(stored: Option<SessionView>)
    ensures
        SessionView::restored(stored).wf(),
        stored.is_none() ==> SessionView::restored(stored) == SessionView::empty(),
        stored.is_some() && !stored.unwrap().wf() ==> SessionView::restored(stored)
            == SessionView::empty(),
{
}

/// A commit declined changes nothing; a commit made adds exactly one speech,
/// takes exactly the head off the line and leaves the stopwatch at zero,
/// with register, categories and the pending entry as they were.
pub proof fn commit_is_all_or_nothing(session: SessionView, now: u64)
    requires
        session.wf(),
    ensures
        session.after_commit_attempt(now).wf(),
        session.timespan.elapsed_when(now) == 0 ==> session.after_commit_attempt(now) == session,
        session.timespan.elapsed_when(now) > 0 ==> {
            let next = session.after_commit_attempt(now);
            &&& next.speeches.len() == session.speeches.len() + 1
            &&& next.speeches.last().category == session.current().category
            &&& next.speeches.last().duration > 0
            &&& next.speeches.drop_last() == session.speeches
            &&& next.timespan == Timespan::zero()
            &&& next.speakers == session.speakers
            &&& session.want_speak.len() > 0 ==> next.want_speak.len() + 1
                == session.want_speak.len()
            &&& next.current() == speaker_at_rank(session.speakers, session.want_speak, 1)
        },
{
    if session.timespan.elapsed_when(now) > 0 {
        let next = session.after_commit_attempt(now);
        assert(next.speeches.drop_last() =~= session.speeches);
    }
}

} // verus!
