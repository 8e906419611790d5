use vstd::prelude::*;

verus! {

/// The identity of a participant or of a resource on the ledger, as the two
/// halves of its address bytes.
#[derive(Clone, Copy, Debug, PartialEq, Eq, Structural)]
pub struct Address {
    pub hi: u128,
    pub lo: u128,
}

/// A voter's choice on a proposal.
#[derive(Clone, Copy, Debug, PartialEq, Eq, Structural)]
pub enum Vote {
    Yes,
    No,
    Blank,
}

/// One line of a tally: a voter and the choice that stands for them.
#[derive(Clone, Copy, Debug, PartialEq, Eq, Structural)]
pub struct VoteEntry {
    pub voter: Address,
    pub choice: Vote,
}

/// The position of a voter's line in a tally, if the voter has one.
pub open spec fn position_of(votes: Seq<VoteEntry>, voter: Address) -> Option<int>
    decreases votes.len(),
{
    if votes.len() == 0 {
        None
    } else {
        match position_of(votes.drop_last(), voter) {
            Some(i) => Some(i),
            None => if votes.last().voter == voter {
                Some(votes.len() - 1)
            } else {
                None
            },
        }
    }
}

/// The choice that stands for a voter, if the voter has voted.
pub open spec fn choice_of(votes: Seq<VoteEntry>, voter: Address) -> Option<Vote> {
    match position_of(votes, voter) {
        Some(i) => Some(votes[i].choice),
        None => None,
    }
}

/// No voter has more than one line.
pub open spec fn distinct_voters(votes: Seq<VoteEntry>) -> bool {
    forall|i: int, j: int|
        0 <= i < votes.len() && 0 <= j < votes.len() && i != j ==> votes[i].voter
            != votes[j].voter
}

/// The number of lines that a voter has.
pub open spec fn lines_of(votes: Seq<VoteEntry>, voter: Address) -> nat
    decreases votes.len(),
{
    if votes.len() == 0 {
        0
    } else {
        lines_of(votes.drop_last(), voter) + if votes.last().voter == voter {
            1nat
        } else {
            0nat
        }
    }
}

/// The tally after a vote: the voter's line now holds the new choice, in its
/// old place; a first vote adds a line at the end.
pub open spec fn recorded(votes: Seq<VoteEntry>, voter: Address, choice: Vote) -> Seq<VoteEntry> {
    match position_of(votes, voter) {
        Some(i) => votes.update(i, VoteEntry { voter, choice }),
        None => votes.push(VoteEntry { voter, choice }),
    }
}

/// `position_of` finds the first line of the voter, and finds one whenever
/// there is any.
pub proof fn lemma_position_of(votes: Seq<VoteEntry>, voter: Address)
    ensures
        match position_of(votes, voter) {
            Some(i) => 0 <= i < votes.len() && votes[i].voter == voter && forall|j: int|
                0 <= j < i ==> votes[j].voter != voter,
            None => forall|j: int| 0 <= j < votes.len() ==> votes[j].voter != voter,
        },
    decreases votes.len(),
{
    if votes.len() > 0 {
        let front = votes.drop_last();
        lemma_position_of(front, voter);
        assert(forall|j: int| 0 <= j < front.len() ==> front[j] == votes[j]);
    }
}

/// The first line of a voter is what `position_of` finds.
pub proof fn lemma_first_line(votes: Seq<VoteEntry>, voter: Address, i: int)
    requires
        0 <= i < votes.len(),
        votes[i].voter == voter,
        forall|j: int| 0 <= j < i ==> votes[j].voter != voter,
    ensures
        position_of(votes, voter) == Some(i),
{
    lemma_position_of(votes, voter);
    match position_of(votes, voter) {
        Some(k) => {
            if k < i {
                assert(votes[k].voter != voter);
            }
        },
        None => {
            assert(votes[i].voter != voter);
        },
    }
}

/// A voter without a line is not found.
pub proof fn lemma_no_line(votes: Seq<VoteEntry>, voter: Address)
    requires
        forall|j: int| 0 <= j < votes.len() ==> votes[j].voter != voter,
    ensures
        position_of(votes, voter) is None,
{
    lemma_position_of(votes, voter);
}

/// With distinct voters, a voter has one line or none.
pub proof fn lemma_lines_of(votes: Seq<VoteEntry>, voter: Address)
    requires
        distinct_voters(votes),
    ensures
        lines_of(votes, voter) == if position_of(votes, voter) is Some {
            1nat
        } else {
            0nat
        },
    decreases votes.len(),
{
    if votes.len() > 0 {
        let front = votes.drop_last();
        assert(forall|j: int| 0 <= j < front.len() ==> front[j] == votes[j]);
        lemma_lines_of(front, voter);
        lemma_position_of(front, voter);
        if votes.last().voter == voter {
            match position_of(front, voter) {
                Some(k) => {
                    assert(votes[k].voter == voter);
                    assert(votes[votes.len() - 1].voter == voter);
                },
                None => {},
            }
        }
    }
}

/// A vote keeps the voters distinct, sets the voter's choice and leaves
/// every other voter's choice as it was.
pub proof fn lemma_recorded(votes: Seq<VoteEntry>, voter: Address, choice: Vote)
    requires
        distinct_voters(votes),
    ensures
        distinct_voters(recorded(votes, voter, choice)),
        choice_of(recorded(votes, voter, choice), voter) == Some(choice),
        forall|other: Address|
            other != voter ==> #[trigger] choice_of(recorded(votes, voter, choice), other)
                == choice_of(votes, other),
        recorded(votes, voter, choice).len() == votes.len() + if position_of(votes, voter) is Some {
            0int
        } else {
            1int
        },
{
    let after = recorded(votes, voter, choice);
    lemma_position_of(votes, voter);
    match position_of(votes, voter) {
        Some(i) => {
            assert(forall|j: int| 0 <= j < after.len() ==> after[j].voter == votes[j].voter);
            lemma_first_line(after, voter, i);
        },
        None => {
            assert(forall|j: int| 0 <= j < votes.len() ==> after[j].voter == votes[j].voter);
            lemma_first_line(after, voter, votes.len() as int);
        },
    }
    assert forall|other: Address| other != voter implies #[trigger] choice_of(after, other)
        == choice_of(votes, other) by {
        lemma_position_of(votes, other);
        match position_of(votes, other) {
            Some(k) => {
                assert(after[k] == votes[k]);
                assert forall|j: int| 0 <= j < k implies after[j].voter != other by {
                    assert(after[j].voter == votes[j].voter);
                }
                lemma_first_line(after, other, k);
            },
            None => {
                assert forall|j: int| 0 <= j < after.len() implies after[j].voter != other by {
                    if j < votes.len() {
                        assert(after[j].voter == votes[j].voter);
                    }
                }
                lemma_no_line(after, other);
            },
        }
    }
}

/// The votes on one proposal: at most one line for each voter, in the order
/// of the first votes.
#[derive(Debug)]
pub struct VoteTally {
    entries: Vec<VoteEntry>,
}

impl View for VoteTally {
    type V = Seq<VoteEntry>;

    closed spec fn view(&self) -> Seq<VoteEntry> {
        self.entries@
    }
}

impl VoteTally {
    /// The tally's invariant: no voter has more than one line. Every tally
    /// that a program holds meets it.
    #[verifier::type_invariant]
    pub open spec fn wf(&self) -> bool {
        distinct_voters(self@)
    }

    /// A tally without votes.
    pub fn new() -> (r: VoteTally)
        ensures
            r.wf(),
            r@ == Seq::<VoteEntry>::empty(),
    {
        VoteTally { entries: Vec::new() }
    }

    /// The number of voters.
    pub fn len(&self) -> (r: usize)
        ensures
            r == self@.len(),
    {
        self.entries.len()
    }

    /// The line at a position, in the order of the first votes.
    pub fn entry(&self, index: usize) -> (r: VoteEntry)
        requires
            index < self@.len(),
        ensures
            r == self@[index as int],
    {
        self.entries[index]
    }

    /// The choice that stands for a voter, if the voter has voted.
    pub fn get(&self, voter: Address) -> (r: Option<Vote>)
        ensures
            r == choice_of(self@, voter),
    {
        match find_line(&self.entries, voter) {
            Some(i) => Some(self.entries[i].choice),
            None => None,
        }
    }

    /// Records a vote. A voter's later vote replaces the earlier one.
    pub fn cast(&mut self, voter: Address, choice: Vote)
        ensures
            final(self).wf(),
            final(self)@ == recorded(old(self)@, voter, choice),
    {
        proof {
            use_type_invariant(&*self);
            lemma_recorded(self@, voter, choice);
        }
        let mut entries: Vec<VoteEntry> = Vec::new();
        std::mem::swap(&mut self.entries, &mut entries);
        match find_line(&entries, voter) {
            Some(i) => {
                entries.set(i, VoteEntry { voter, choice });
            },
            None => {
                entries.push(VoteEntry { voter, choice });
            },
        }
        self.entries = entries;
    }
}

/// The position of a voter's line among the lines of a tally.
fn find_line(entries: &Vec<VoteEntry>, voter: Address) -> (r: Option<usize>)
    ensures
        match r {
            Some(i) => position_of(entries@, voter) == Some(i as int) && i < entries@.len(),
            None => position_of(entries@, voter) is None,
        },
{
    let mut i: usize = 0;
    while i < entries.len()
        invariant
            i <= entries.len(),
            forall|j: int| 0 <= j < i ==> entries@[j].voter != voter,
        decreases entries.len() - i,
    {
        if entries[i].voter == voter {
            proof {
                lemma_position_of(entries@, voter);
            }
            return Some(i);
        }
        i += 1;
    }
    proof {
        lemma_position_of(entries@, voter);
    }
    None
}

} // verus!
