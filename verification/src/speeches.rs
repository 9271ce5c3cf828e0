//! The log of the speeches made, and what it adds up to per category.
//!
//! A speech is a duration in nanoseconds and a category. Categories are free
//! text, and two are the same where they are the same text.

use crate::error::TurnError;
use vstd::prelude::*;
use vstd::string::*;

verus! {

/// What a speech is, to the contracts.
pub struct SpeechView {
    pub duration: u64,
    pub category: Seq<char>,
}

/// A speech that was made: how long it took, and what category it counts
/// for.
#[derive(Debug, PartialEq, Eq)]
pub struct Speech {
    /// Nanoseconds.
    pub duration: u64,
    pub category: String,
}

impl View for Speech {
    type V = SpeechView;

    open spec fn view(&self) -> SpeechView {
        SpeechView { duration: self.duration, category: self.category@ }
    }
}

impl Clone for Speech {
    fn clone(&self) -> (copy: Speech)
        ensures
            copy@ == self@,
    {
        Speech { duration: self.duration, category: self.category.clone() }
    }
}

/// What `speech` adds to the time of `category`.
pub open spec fn share_of(speech: SpeechView, category: Seq<char>) -> nat {
    if speech.category == category {
        speech.duration as nat
    } else {
        0
    }
}

/// The time spoken in `category`: the sum of the durations of its speeches.
pub open spec fn total_of(log: Seq<SpeechView>, category: Seq<char>) -> nat
    decreases log.len(),
{
    if log.len() == 0 {
        0
    } else {
        total_of(log.drop_last(), category) + share_of(log.last(), category)
    }
}

/// The number of speeches in `category`.
pub open spec fn count_of(log: Seq<SpeechView>, category: Seq<char>) -> nat
    decreases log.len(),
{
    if log.len() == 0 {
        0
    } else if log.last().category == category {
        count_of(log.drop_last(), category) + 1
    } else {
        count_of(log.drop_last(), category)
    }
}

/// The character for one decimal digit.
pub open spec fn digit_char(digit: nat) -> char {
    if digit == 0 {
        '0'
    } else if digit == 1 {
        '1'
    } else if digit == 2 {
        '2'
    } else if digit == 3 {
        '3'
    } else if digit == 4 {
        '4'
    } else if digit == 5 {
        '5'
    } else if digit == 6 {
        '6'
    } else if digit == 7 {
        '7'
    } else if digit == 8 {
        '8'
    } else {
        '9'
    }
}

/// `n` written in decimal, without leading zeros.
pub open spec fn decimal(n: nat) -> Seq<char>
    decreases n,
{
    if n < 10 {
        seq![digit_char(n)]
    } else {
        decimal(n / 10).push(digit_char(n % 10))
    }
}

/// The number that a decimal digit stands for; zero for any other character.
pub open spec fn digit_value(digit: char) -> nat {
    if digit == '1' {
        1
    } else if digit == '2' {
        2
    } else if digit == '3' {
        3
    } else if digit == '4' {
        4
    } else if digit == '5' {
        5
    } else if digit == '6' {
        6
    } else if digit == '7' {
        7
    } else if digit == '8' {
        8
    } else if digit == '9' {
        9
    } else {
        0
    }
}

/// The number that a run of decimal digits stands for.
pub open spec fn decimal_value(digits: Seq<char>) -> nat
    decreases digits.len(),
{
    if digits.len() == 0 {
        0
    } else {
        decimal_value(digits.drop_last()) * 10 + digit_value(digits.last())
    }
}

/// Whether `c` is one of the ten decimal digits.
pub open spec fn is_digit(c: char) -> bool {
    c == '0' || c == '1' || c == '2' || c == '3' || c == '4' || c == '5' || c == '6' || c == '7'
        || c == '8' || c == '9'
}

/// The line that a speech takes in the exported text: its duration in
/// nanoseconds, a comma, its category, and a line feed.
pub open spec fn line_of(speech: SpeechView) -> Seq<char> {
    decimal(speech.duration as nat) + seq![','] + speech.category + seq!['\n']
}

/// The exported text: one line for each speech, in the order of the log.
pub open spec fn export_of(log: Seq<SpeechView>) -> Seq<char>
    decreases log.len(),
{
    if log.len() == 0 {
        Seq::empty()
    } else {
        export_of(log.drop_last()) + line_of(log.last())
    }
}

/// One decimal digit as text.
fn digit_text(digit: u128) -> (text: &'static str)
    requires
        digit < 10,
    ensures
        text@ == seq![digit_char(digit as nat)],
{
    proof {
        reveal_strlit("0");
        reveal_strlit("1");
        reveal_strlit("2");
        reveal_strlit("3");
        reveal_strlit("4");
        reveal_strlit("5");
        reveal_strlit("6");
        reveal_strlit("7");
        reveal_strlit("8");
        reveal_strlit("9");
    }
    let text = if digit == 0 {
        "0"
    } else if digit == 1 {
        "1"
    } else if digit == 2 {
        "2"
    } else if digit == 3 {
        "3"
    } else if digit == 4 {
        "4"
    } else if digit == 5 {
        "5"
    } else if digit == 6 {
        "6"
    } else if digit == 7 {
        "7"
    } else if digit == 8 {
        "8"
    } else {
        "9"
    };
    assert(text@ =~= seq![digit_char(digit as nat)]);
    text
}

/// Writes `n` in decimal at the end of `out`.
pub fn push_decimal(out: &mut String, n: u128)
    ensures
        final(out)@ == old(out)@ + decimal(n as nat),
    decreases n,
{
    if n >= 10 {
        push_decimal(out, n / 10);
    }
    out.append(digit_text(n % 10));
    assert(out@ =~= old(out)@ + decimal(n as nat));
}

impl Speech {
    pub fn new(duration: u64, category: String) -> (speech: Speech)
        ensures
            speech@ == (SpeechView { duration, category: category@ }),
    {
        Speech { duration, category }
    }

    /// The speech as one line of the exported text, line feed included.
    pub fn export_to_csv(&self) -> (line: String)
        ensures
            line@ == line_of(self@),
    {
        let mut line = String::new();
        push_decimal(&mut line, self.duration as u128);
        proof {
            reveal_strlit(",");
            reveal_strlit("\n");
        }
        line.append(",");
        line.append(self.category.as_str());
        line.append("\n");
        assert(line@ =~= line_of(self@));
        line
    }
}

/// The speeches made so far, oldest first.
#[derive(Debug, PartialEq, Eq)]
pub struct SpeechLog {
    pub list: Vec<Speech>,
}

impl View for SpeechLog {
    type V = Seq<SpeechView>;

    open spec fn view(&self) -> Seq<SpeechView> {
        self.list@.map_values(|s: Speech| s@)
    }
}

impl Clone for SpeechLog {
    fn clone(&self) -> (copy: SpeechLog)
        ensures
            copy@ == self@,
    {
        let mut list: Vec<Speech> = Vec::new();
        let n: usize = self.list.len();
        let mut at: usize = 0;
        while at < n
            invariant
                at <= n,
                n == self.list@.len(),
                list@.len() == at,
                forall|i: int| 0 <= i < at ==> (#[trigger] list@[i])@ == self.list@[i]@,
            decreases n - at,
        {
            list.push(self.list[at].clone());
            at += 1;
        }
        let copy = SpeechLog { list };
        assert(copy@ =~= self@);
        copy
    }
}

impl SpeechLog {
    pub fn new() -> (log: SpeechLog)
        ensures
            log@ == Seq::<SpeechView>::empty(),
    {
        let log = SpeechLog { list: Vec::new() };
        assert(log@ =~= Seq::<SpeechView>::empty());
        log
    }

    pub fn len(&self) -> (n: usize)
        ensures
            n == self@.len(),
    {
        self.list.len()
    }

    /// The speech at `position`, or `NoSuchSpeech` where the log is shorter.
    pub fn get(&self, position: usize) -> (found: Result<Speech, TurnError>)
        ensures
            position < self@.len() ==> found.is_ok() && found.unwrap()@ == self@[position as int],
            position >= self@.len() ==> found == Err::<Speech, TurnError>(TurnError::NoSuchSpeech),
    {
        if position < self.list.len() {
            Ok(self.list[position].clone())
        } else {
            Err(TurnError::NoSuchSpeech)
        }
    }

    /// Logs a speech after those already there.
    pub fn record(&mut self, duration: u64, category: String)
        ensures
            final(self)@ == old(self)@.push(SpeechView { duration, category: category@ }),
    {
        self.list.push(Speech { duration, category });
        assert(self@ =~= old(self)@.push(SpeechView { duration, category: category@ }));
    }

    /// Strikes the speech at `position` and hands it back; declines with
    /// `NoSuchSpeech`, changing nothing, where the log is shorter.
    pub fn remove(&mut self, position: usize) -> (taken: Result<Speech, TurnError>)
        ensures
            position < old(self)@.len() ==> taken.is_ok() && taken.unwrap()@ == old(
                self,
            )@[position as int] && final(self)@ == old(self)@.remove(position as int),
            position >= old(self)@.len() ==> taken == Err::<Speech, TurnError>(
                TurnError::NoSuchSpeech,
            ) && final(self)@ == old(self)@,
    {
        if position < self.list.len() {
            let speech = self.list.remove(position);
            assert(self@ =~= old(self)@.remove(position as int));
            Ok(speech)
        } else {
            Err(TurnError::NoSuchSpeech)
        }
    }

    /// Counts the speech at `position` for `category` from now on; its
    /// duration stays. Declines with `NoSuchSpeech`, changing nothing, where
    /// the log is shorter.
    pub fn reassign_category(&mut self, position: usize, category: String) -> (done: Result<
        (),
        TurnError,
    >)
        ensures
            position < old(self)@.len() ==> done.is_ok() && final(self)@ == old(self)@.update(
                position as int,
                SpeechView { duration: old(self)@[position as int].duration, category: category@ },
            ),
            position >= old(self)@.len() ==> done == Err::<(), TurnError>(TurnError::NoSuchSpeech)
                && final(self)@ == old(self)@,
    {
        if position < self.list.len() {
            let duration: u64 = self.list[position].duration;
            self.list.set(position, Speech { duration, category });
            assert(self@ =~= old(self)@.update(
                position as int,
                SpeechView { duration: old(self)@[position as int].duration, category: category@ },
            ));
            Ok(())
        } else {
            Err(TurnError::NoSuchSpeech)
        }
    }

    /// Empties the log.
    pub fn clear(&mut self)
        ensures
            final(self)@ == Seq::<SpeechView>::empty(),
    {
        self.list.clear();
        assert(self@ =~= Seq::<SpeechView>::empty());
    }

    /// The time spoken in `category`, in nanoseconds.
    pub fn total_for(&self, category: &String) -> (total: u128)
        ensures
            total == total_of(self@, category@),
    {
        let n: usize = self.list.len();
        let mut total: u128 = 0;
        let mut at: usize = 0;
        while at < n
            invariant
                at <= n,
                n == self.list@.len(),
                total == total_of(self@.take(at as int), category@),
                total <= at * 0xffff_ffff_ffff_ffff,
            decreases n - at,
        {
            assert(self@.take(at + 1).drop_last() =~= self@.take(at as int));
            if self.list[at].category == *category {
                total = total + self.list[at].duration as u128;
            }
            at += 1;
        }
        assert(self@.take(n as int) =~= self@);
        total
    }

    /// The number of speeches in `category`.
    pub fn count_for(&self, category: &String) -> (count: usize)
        ensures
            count == count_of(self@, category@),
    {
        let n: usize = self.list.len();
        let mut count: usize = 0;
        let mut at: usize = 0;
        while at < n
            invariant
                at <= n,
                n == self.list@.len(),
                count == count_of(self@.take(at as int), category@),
                count <= at,
            decreases n - at,
        {
            assert(self@.take(at + 1).drop_last() =~= self@.take(at as int));
            if self.list[at].category == *category {
                count = count + 1;
            }
            at += 1;
        }
        assert(self@.take(n as int) =~= self@);
        count
    }

    /// The log as text, one line for each speech: the duration in
    /// nanoseconds, a comma, the category, a line feed.
    pub fn export_as_text(&self) -> (text: String)
        ensures
            text@ == export_of(self@),
    {
        let n: usize = self.list.len();
        let mut text = String::new();
        let mut at: usize = 0;
        while at < n
            invariant
                at <= n,
                n == self.list@.len(),
                text@ == export_of(self@.take(at as int)),
            decreases n - at,
        {
            assert(self@.take(at + 1).drop_last() =~= self@.take(at as int));
            let line = self.list[at].export_to_csv();
            text.append(line.as_str());
            at += 1;
        }
        assert(self@.take(n as int) =~= self@);
        text
    }
}

/// A duration can be read back from how it was written: the decimal form
/// of a number is made of digits only, so it ends before the comma that
/// follows it in a line, and it stands for that number and no other.
pub proof fn decimal_reads_back(n: nat)
    ensures
        decimal(n).len() >= 1,
        forall|at: int| 0 <= at < decimal(n).len() ==> is_digit(#[trigger] decimal(n)[at]),
        decimal_value(decimal(n)) == n,
    decreases n,
{
    if n < 10 {
        assert(decimal(n).drop_last() =~= Seq::<char>::empty());
        assert(decimal_value(decimal(n).drop_last()) == 0);
    } else {
        decimal_reads_back(n / 10);
        assert(decimal(n).drop_last() =~= decimal(n / 10));
    }
}

/// Two durations are written alike only where they are the same.
pub proof fn decimal_is_one_to_one(a: nat, b: nat)
    requires
        decimal(a) == decimal(b),
    ensures
        a == b,
{
    decimal_reads_back(a);
    decimal_reads_back(b);
}

/// A line of the exported text tells its speech: two speeches that are
/// written alike have the same duration and the same category.
pub proof fn line_tells_the_speech(a: SpeechView, b: SpeechView)
    requires
        line_of(a) == line_of(b),
    ensures
        a == b,
{
    let digits_a = decimal(a.duration as nat);
    let digits_b = decimal(b.duration as nat);
    let at_a = digits_a.len() as int;
    let at_b = digits_b.len() as int;
    let line = line_of(a);
    decimal_reads_back(a.duration as nat);
    decimal_reads_back(b.duration as nat);
    assert(line.len() == at_a + a.category.len() + 2);
    assert(line.len() == at_b + b.category.len() + 2);
    assert(line_of(a)[at_a] == ',');
    assert(line_of(b)[at_b] == ',');
    if at_a < at_b {
        assert(line_of(b)[at_a] == digits_b[at_a]);
        assert(is_digit(digits_b[at_a]));
    }
    if at_b < at_a {
        assert(line_of(a)[at_b] == digits_a[at_b]);
        assert(is_digit(digits_a[at_b]));
    }
    assert(at_a == at_b);
    assert forall|i: int| 0 <= i < at_a implies digits_a[i] == digits_b[i] by {
        assert(line_of(a)[i] == digits_a[i]);
        assert(line_of(b)[i] == digits_b[i]);
    }
    assert(digits_a =~= digits_b);
    decimal_is_one_to_one(a.duration as nat, b.duration as nat);
    assert forall|i: int| 0 <= i < a.category.len() implies a.category[i] == b.category[i] by {
        assert(line_of(a)[at_a + 1 + i] == a.category[i]);
        assert(line_of(b)[at_b + 1 + i] == b.category[i]);
    }
    assert(a.category =~= b.category);
}

/// A category that no speech carries has no time and no speeches.
pub proof fn unused_category_counts_nothing(log: Seq<SpeechView>, category: Seq<char>)
    requires
        forall|at: int| 0 <= at < log.len() ==> (#[trigger] log[at]).category != category,
    ensures
        total_of(log, category) == 0,
        count_of(log, category) == 0,
    decreases log.len(),
{
    if log.len() > 0 {
        assert(log[log.len() - 1].category != category);
        unused_category_counts_nothing(log.drop_last(), category);
    }
}

/// A new speech adds its duration and one speech to its own category, and
/// nothing to any other.
pub proof fn record_counts_for_its_category(
    log: Seq<SpeechView>,
    speech: SpeechView,
    category: Seq<char>,
)
    ensures
        total_of(log.push(speech), category) == total_of(log, category) + share_of(
            speech,
            category,
        ),
        count_of(log.push(speech), category) == count_of(log, category) + if speech.category
            == category {
            1nat
        } else {
            0nat
        },
{
    assert(log.push(speech).drop_last() =~= log);
}

/// The number of speeches in a category is the number of entries of the log
/// that carry it, and no total is more than the speeches could have taken.
pub proof fn count_is_number_of_matches(log: Seq<SpeechView>, category: Seq<char>)
    ensures
        count_of(log, category) == log.filter(|s: SpeechView| s.category == category).len(),
        count_of(log, category) <= log.len(),
        total_of(log, category) <= count_of(log, category) * u64::MAX,
    decreases log.len(),
{
    reveal(Seq::filter);
    if log.len() > 0 {
        count_is_number_of_matches(log.drop_last(), category);
    }
}

} // verus!
