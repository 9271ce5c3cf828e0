//! The register of speakers and the line of those waiting to speak.
//!
//! A speaker is known by its position in the register. The line holds such
//! positions, first come first served, and a speaker may stand in it more
//! than once.

use crate::error::TurnError;
use std::collections::VecDeque;
use vstd::prelude::*;
use vstd::string::*;

verus! {

/// What a speaker is, to the contracts: a name and a category, as text.
pub struct SpeakerView {
    pub name: Seq<char>,
    pub category: Seq<char>,
}

/// A participant of the meeting.
#[derive(Debug, PartialEq, Eq)]
pub struct Speaker {
    pub name: String,
    pub category: String,
}

impl View for Speaker {
    type V = SpeakerView;

    open spec fn view(&self) -> SpeakerView {
        SpeakerView { name: self.name@, category: self.category@ }
    }
}

impl Clone for Speaker {
    fn clone(&self) -> (copy: Speaker)
        ensures
            copy@ == self@,
    {
        Speaker { name: self.name.clone(), category: self.category.clone() }
    }
}

/// The speaker shown where the line has nobody at a rank: named "no one",
/// with an empty category.
pub open spec fn nobody() -> SpeakerView {
    SpeakerView { name: "no one"@, category: Seq::empty() }
}

impl Speaker {
    pub fn new(name: String, category: String) -> (s: Speaker)
        ensures
            s@ == (SpeakerView { name: name@, category: category@ }),
    {
        Speaker { name, category }
    }

    /// The stand-in for an empty place in the line.
    pub fn nobody() -> (s: Speaker)
        ensures
            s@ == nobody(),
    {
        Speaker { name: String::from_str("no one"), category: String::new() }
    }
}

/// The position that a speaker at `index` has once the speaker at `gone` has
/// left the register: those behind move up by one.
pub open spec fn renumbered(index: usize, gone: usize) -> usize {
    if index > gone {
        (index - 1) as usize
    } else {
        index
    }
}

/// The entries of `queue` other than `gone`, in their order.
pub open spec fn survivors(queue: Seq<usize>, gone: usize) -> Seq<usize>
    decreases queue.len(),
{
    if queue.len() == 0 {
        Seq::empty()
    } else if queue.last() == gone {
        survivors(queue.drop_last(), gone)
    } else {
        survivors(queue.drop_last(), gone).push(queue.last())
    }
}

/// The line after the speaker at `gone` has left the register: every entry
/// for that speaker is dropped, and the others are renumbered.
pub open spec fn purged(queue: Seq<usize>, gone: usize) -> Seq<usize> {
    survivors(queue, gone).map_values(|index: usize| renumbered(index, gone))
}

/// Every entry of `queue` is a position in a register of `count` speakers.
pub open spec fn all_below(queue: Seq<usize>, count: nat) -> bool {
    forall|rank: int| 0 <= rank < queue.len() ==> #[trigger] queue[rank] < count
}

/// Who stands at `rank` in the line (0 speaks now, 1 speaks next), or
/// `nobody()` where the line is shorter.
pub open spec fn speaker_at_rank(
    speakers: Seq<SpeakerView>,
    queue: Seq<usize>,
    rank: int,
) -> SpeakerView {
    if 0 <= rank < queue.len() {
        speakers[queue[rank] as int]
    } else {
        nobody()
    }
}

/// The line of speakers waiting for their turn, as positions in the register.
#[derive(Debug, PartialEq, Eq)]
pub struct Order {
    pub queue: VecDeque<usize>,
}

impl View for Order {
    type V = Seq<usize>;

    open spec fn view(&self) -> Seq<usize> {
        self.queue@
    }
}

impl Clone for Order {
    fn clone(&self) -> (copy: Order)
        ensures
            copy@ == self@,
    {
        let mut queue: VecDeque<usize> = VecDeque::new();
        let n: usize = self.queue.len();
        let mut rank: usize = 0;
        while rank < n
            invariant
                rank <= n,
                n == self.queue@.len(),
                queue@ == self.queue@.take(rank as int),
            decreases n - rank,
        {
            queue.push_back(self.queue[rank]);
            assert(queue@ =~= self.queue@.take(rank + 1));
            rank += 1;
        }
        assert(queue@ =~= self.queue@);
        Order { queue }
    }
}

impl Order {
    /// Whether every entry is a position in a register of `count` speakers.
    pub open spec fn valid_for(&self, count: nat) -> bool {
        all_below(self@, count)
    }

    pub fn new() -> (order: Order)
        ensures
            order@ == Seq::<usize>::empty(),
    {
        Order { queue: VecDeque::new() }
    }

    pub fn len(&self) -> (n: usize)
        ensures
            n == self@.len(),
    {
        self.queue.len()
    }

    /// The register position at `rank`, if the line is that long.
    pub fn get(&self, rank: usize) -> (entry: Option<usize>)
        ensures
            entry == if rank < self@.len() {
                Some(self@[rank as int])
            } else {
                None
            },
    {
        if rank < self.queue.len() {
            Some(self.queue[rank])
        } else {
            None
        }
    }

    /// Takes out the entry at `rank` and that one only, and hands it back;
    /// `None`, with the line unchanged, where the line is shorter.
    pub fn remove(&mut self, rank: usize) -> (taken: Option<usize>)
        ensures
            rank < old(self)@.len() ==> taken == Some(old(self)@[rank as int]) && final(self)@
                == old(self)@.remove(rank as int),
            rank >= old(self)@.len() ==> taken.is_none() && final(self)@ == old(self)@,
    {
        self.queue.remove(rank)
    }

    /// Whether every entry is below `count`.
    pub fn is_valid_for(&self, count: usize) -> (ok: bool)
        ensures
            ok == self.valid_for(count as nat),
    {
        let n: usize = self.queue.len();
        let mut rank: usize = 0;
        while rank < n
            invariant
                rank <= n,
                n == self.queue@.len(),
                all_below(self.queue@.take(rank as int), count as nat),
            decreases n - rank,
        {
            if self.queue[rank] >= count {
                return false;
            }
            assert forall|r: int| 0 <= r < rank + 1 implies #[trigger] self.queue@.take(
                rank + 1,
            )[r] < count by {
                if r < rank {
                    assert(self.queue@.take(rank as int)[r] < count);
                }
            }
            rank += 1;
        }
        assert(self.queue@.take(n as int) =~= self.queue@);
        true
    }

    /// Drops every entry for the speaker at `gone` and renumbers the rest.
    fn purge(&mut self, gone: usize)
        ensures
            final(self)@ == purged(old(self)@, gone),
    {
        let mut kept: VecDeque<usize> = VecDeque::new();
        let n: usize = self.queue.len();
        let mut rank: usize = 0;
        while rank < n
            invariant
                rank <= n,
                n == self.queue@.len(),
                kept@ == purged(self.queue@.take(rank as int), gone),
            decreases n - rank,
        {
            let entry: usize = self.queue[rank];
            assert(self.queue@.take(rank + 1).drop_last() =~= self.queue@.take(rank as int));
            if entry != gone {
                let moved: usize = if entry > gone {
                    entry - 1
                } else {
                    entry
                };
                kept.push_back(moved);
            }
            assert(kept@ =~= purged(self.queue@.take(rank + 1), gone));
            rank += 1;
        }
        assert(self.queue@.take(n as int) =~= self.queue@);
        self.queue = kept;
    }
}

/// The register of speakers.
#[derive(Debug, PartialEq, Eq)]
pub struct Speakers {
    pub list: Vec<Speaker>,
}

impl View for Speakers {
    type V = Seq<SpeakerView>;

    open spec fn view(&self) -> Seq<SpeakerView> {
        self.list@.map_values(|s: Speaker| s@)
    }
}

impl Clone for Speakers {
    fn clone(&self) -> (copy: Speakers)
        ensures
            copy@ == self@,
    {
        let mut list: Vec<Speaker> = Vec::new();
        let n: usize = self.list.len();
        let mut at: usize = 0;
        while at < n
            invariant
                at <= n,
                n == self.list@.len(),
                list@.len() == at,
                forall|i: int| 0 <= i < at ==> (#[trigger] list@[i])@ == self.list@[i]@,
            decreases n - at,
        {
            list.push(self.list[at].clone());
            at += 1;
        }
        let copy = Speakers { list };
        assert(copy@ =~= self@);
        copy
    }
}

impl Speakers {
    pub fn new() -> (speakers: Speakers)
        ensures
            speakers@ == Seq::<SpeakerView>::empty(),
    {
        let speakers = Speakers { list: Vec::new() };
        assert(speakers@ =~= Seq::<SpeakerView>::empty());
        speakers
    }

    pub fn len(&self) -> (n: usize)
        ensures
            n == self@.len(),
    {
        self.list.len()
    }

    /// Registers a speaker behind those already there. Two speakers may
    /// carry the same name.
    pub fn add_speaker(&mut self, speaker: Speaker)
        ensures
            final(self)@ == old(self)@.push(speaker@),
    {
        self.list.push(speaker);
        assert(self@ =~= old(self)@.push(speaker@));
    }

    /// The speaker at `index`, or `NoSuchSpeaker` where the register is
    /// shorter.
    pub fn get_speaker(&self, index: usize) -> (found: Result<Speaker, TurnError>)
        ensures
            index < self@.len() ==> found.is_ok() && found.unwrap()@ == self@[index as int],
            index >= self@.len() ==> found == Err::<Speaker, TurnError>(TurnError::NoSuchSpeaker),
    {
        if index < self.list.len() {
            Ok(self.list[index].clone())
        } else {
            Err(TurnError::NoSuchSpeaker)
        }
    }

    /// Puts the speaker at `index` at the end of the line; declines with
    /// `NoSuchSpeaker`, leaving the line as it was, where there is none.
    pub fn speaker_wants_to_speak(&self, index: usize, order: &mut Order) -> (done: Result<
        (),
        TurnError,
    >)
        ensures
            index < self@.len() ==> done.is_ok() && final(order)@ == old(order)@.push(index),
            index >= self@.len() ==> done == Err::<(), TurnError>(TurnError::NoSuchSpeaker)
                && final(order)@ == old(order)@,
            old(order).valid_for(self@.len()) ==> final(order).valid_for(self@.len()),
    {
        if index < self.list.len() {
            order.queue.push_back(index);
            Ok(())
        } else {
            Err(TurnError::NoSuchSpeaker)
        }
    }

    /// Who stands at `rank` in the line, or the stand-in where the line is
    /// shorter.
    fn speaker_in_line(&self, order: &Order, rank: usize) -> (speaker: Speaker)
        requires
            order.valid_for(self@.len()),
        ensures
            speaker@ == speaker_at_rank(self@, order@, rank as int),
    {
        if rank < order.queue.len() {
            let index: usize = order.queue[rank];
            assert(order@[rank as int] < self@.len());
            self.list[index].clone()
        } else {
            Speaker::nobody()
        }
    }

    /// The speaker at the head of the line, whose turn it is; the stand-in
    /// named "no one" where the line is empty.
    pub fn current_speaker(&self, order: &Order) -> (speaker: Speaker)
        requires
            order.valid_for(self@.len()),
        ensures
            speaker@ == speaker_at_rank(self@, order@, 0),
    {
        self.speaker_in_line(order, 0)
    }

    /// The speaker second in line; the stand-in where fewer than two wait.
    pub fn next_speaker(&self, order: &Order) -> (speaker: Speaker)
        requires
            order.valid_for(self@.len()),
        ensures
            speaker@ == speaker_at_rank(self@, order@, 1),
    {
        self.speaker_in_line(order, 1)
    }

    /// The speaker at the head of the line has spoken and leaves it. On an
    /// empty line nothing happens.
    pub fn speaker_spoke(&self, order: &mut Order)
        ensures
            old(order)@.len() == 0 ==> final(order)@ == old(order)@,
            old(order)@.len() > 0 ==> final(order)@ == old(order)@.drop_first(),
            old(order).valid_for(self@.len()) ==> final(order).valid_for(self@.len()),
    {
        let _ = order.queue.pop_front();
    }

    /// Strikes the speaker at `index` from the register and from the line:
    /// every entry of the line for that speaker goes, and the entries for
    /// speakers behind it follow them to their new positions. Declines with
    /// `NoSuchSpeaker`, changing nothing, where there is no such speaker.
    pub fn delete_speaker(&mut self, index: usize, order: &mut Order) -> (done: Result<
        (),
        TurnError,
    >)
        ensures
            index < old(self)@.len() ==> done.is_ok() && final(self)@ == old(self)@.remove(
                index as int,
            ) && final(order)@ == purged(old(order)@, index),
            index >= old(self)@.len() ==> done == Err::<(), TurnError>(TurnError::NoSuchSpeaker)
                && final(self)@ == old(self)@ && final(order)@ == old(order)@,
            old(order).valid_for(old(self)@.len()) ==> final(order).valid_for(final(self)@.len()),
    {
        if index < self.list.len() {
            let _ = self.list.remove(index);
            assert(self@ =~= old(self)@.remove(index as int));
            order.purge(index);
            proof {
                if old(order).valid_for(old(self)@.len()) {
                    purge_keeps_every_speaker(old(self)@, old(order)@, index);
                }
            }
            Ok(())
        } else {
            Err(TurnError::NoSuchSpeaker)
        }
    }
}

/// What is left of a line after `gone` is taken out: no entry for `gone`,
/// nothing that was not in the line, and nothing longer than the line.
pub proof fn survivors_are_the_others(queue: Seq<usize>, gone: usize)
    ensures
        !survivors(queue, gone).contains(gone),
        survivors(queue, gone).len() <= queue.len(),
        forall|rank: int|
            0 <= rank < survivors(queue, gone).len() ==> queue.contains(
                #[trigger] survivors(queue, gone)[rank],
            ),
        !queue.contains(gone) ==> survivors(queue, gone) == queue,
    decreases queue.len(),
{
    if queue.len() > 0 {
        let front = queue.drop_last();
        survivors_are_the_others(front, gone);
        assert forall|rank: int| 0 <= rank < survivors(queue, gone).len() implies queue.contains(
            #[trigger] survivors(queue, gone)[rank],
        ) by {
            if rank < survivors(front, gone).len() {
                let entry = survivors(front, gone)[rank];
                assert(front.contains(entry));
                let at = choose|at: int| 0 <= at < front.len() && front[at] == entry;
                assert(queue[at] == entry);
            } else {
                assert(queue[queue.len() - 1] == survivors(queue, gone)[rank]);
            }
        }
        if !queue.contains(gone) {
            assert(queue[queue.len() - 1] != gone);
            assert forall|at: int| 0 <= at < front.len() implies front[at] != gone by {
                assert(queue[at] == front[at]);
            }
            assert(!front.contains(gone));
            assert(survivors(queue, gone) =~= queue);
        }
    } else {
        assert(survivors(queue, gone) =~= queue);
    }
}

/// What is left of a line is the line filtered: its entries other than
/// `gone`, each as often as it stood there and in the order in which they stood.
pub proof fn survivors_are_the_line_filtered(queue: Seq<usize>, gone: usize)
    ensures
        survivors(queue, gone) == queue.filter(|index: usize| index != gone),
    decreases queue.len(),
{
    reveal(Seq::filter);
    if queue.len() > 0 {
        survivors_are_the_line_filtered(queue.drop_last(), gone);
    }
}

/// Striking a speaker keeps the line true to the register. Where every entry
/// of the line was a registered speaker, every entry of the new line is one
/// of the new register; the new line has one entry for each entry that was
/// not for the struck speaker, in the same order; and each of them stands
/// for the same speaker as before.
pub proof fn purge_keeps_every_speaker(speakers: Seq<SpeakerView>, queue: Seq<usize>, gone: usize)
    requires
        gone < speakers.len(),
        all_below(queue, speakers.len()),
    ensures
        all_below(purged(queue, gone), speakers.remove(gone as int).len()),
        purged(queue, gone).len() == survivors(queue, gone).len(),
        forall|rank: int|
            0 <= rank < survivors(queue, gone).len() ==> speakers.remove(
                gone as int,
            )[#[trigger] purged(queue, gone)[rank] as int] == speakers[survivors(
                queue,
                gone,
            )[rank] as int],
{
    survivors_are_the_others(queue, gone);
    let left = survivors(queue, gone);
    assert forall|rank: int| 0 <= rank < left.len() implies left[rank] != gone && left[rank]
        < speakers.len() by {
        assert(queue.contains(left[rank]));
        let at = choose|at: int| 0 <= at < queue.len() && queue[at] == left[rank];
        assert(queue[at] < speakers.len());
        assert(left.contains(left[rank]));
    }
    assert forall|rank: int| 0 <= rank < purged(queue, gone).len() implies #[trigger] purged(
        queue,
        gone,
    )[rank] < speakers.remove(gone as int).len() by {
        assert(left[rank] != gone && left[rank] < speakers.len());
    }
}

/// First come, first served: joining the line changes nobody's rank ahead,
/// and the newcomer stands at the end.
pub proof fn enqueue_keeps_those_ahead(
    speakers: Seq<SpeakerView>,
    queue: Seq<usize>,
    index: usize,
    rank: int,
)
    requires
        0 <= rank <= queue.len(),
    ensures
        rank < queue.len() ==> speaker_at_rank(speakers, queue.push(index), rank)
            == speaker_at_rank(speakers, queue, rank),
        rank == queue.len() ==> speaker_at_rank(speakers, queue.push(index), rank)
            == speakers[index as int],
{
}

/// Registering a newcomer changes nobody's place in the line.
pub proof fn add_speaker_keeps_the_line(
    speakers: Seq<SpeakerView>,
    queue: Seq<usize>,
    newcomer: SpeakerView,
    rank: int,
)
    requires
        all_below(queue, speakers.len()),
    ensures
        speaker_at_rank(speakers.push(newcomer), queue, rank) == speaker_at_rank(
            speakers,
            queue,
            rank,
        ),
        all_below(queue, speakers.push(newcomer).len()),
{
}

/// Once the head of the line has spoken, everyone behind moves up by one.
pub proof fn speaker_spoke_moves_the_line_up(
    speakers: Seq<SpeakerView>,
    queue: Seq<usize>,
    rank: int,
)
    requires
        queue.len() > 0,
        0 <= rank,
    ensures
        speaker_at_rank(speakers, queue.drop_first(), rank) == speaker_at_rank(
            speakers,
            queue,
            rank + 1,
        ),
{
}

} // verus!
