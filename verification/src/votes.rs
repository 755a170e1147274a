//! The tally of a poll: one weight per option, and the rule that names the winner.

use vstd::prelude::*;

verus! {

/// The weight gathered by each option of a poll; the index is the option.
#[derive(Clone, Debug, PartialEq, Eq)]
pub struct Votes(pub Vec<u128>);

/// The tally of a poll with `n` options in which nobody has voted.
pub open spec fn zeros(n: nat) -> Seq<u128> {
    Seq::new(n, |i: int| 0u128)
}

/// The sum of two weights, held at the largest weight there is.
pub open spec fn saturating_sum(a: u128, b: u128) -> u128 {
    if a + b > u128::MAX {
        u128::MAX
    } else {
        (a + b) as u128
    }
}

/// Option `i` holds some weight, and more of it than any other option.
pub open spec fn leads(tally: Seq<u128>, i: int) -> bool {
    &&& 0 <= i < tally.len()
    &&& tally[i] > 0
    &&& forall|j: int| 0 <= j < tally.len() && j != i ==> #[trigger] tally[j] < tally[i]
}

/// The option that wins with this tally: the one that leads, if any does. A tally in which
/// no option leads, because nobody voted or because the largest weight is shared, has no
/// winner. The tally without any option is given option 0.
pub open spec fn winner(tally: Seq<u128>) -> Option<int> {
    if tally.len() == 0 {
        Some(0)
    } else if exists|i: int| leads(tally, i) {
        Some(choose|i: int| leads(tally, i))
    } else {
        None
    }
}

/// What a scan of a tally from the left remembers: the largest weight seen, the first
/// option that reached it, and whether that weight was met again.
pub struct Scan {
    pub max: u128,
    pub max_index: int,
    pub tie: bool,
}

/// The scan of `tally` from option 0 upwards. A weight above the largest so far becomes the
/// largest and clears the tie; a weight equal to it marks a tie; a smaller one changes
/// nothing.
pub open spec fn scan(tally: Seq<u128>) -> Scan
    decreases tally.len(),
{
    if tally.len() == 0 {
        Scan { max: 0, max_index: 0, tie: false }
    } else {
        let before = scan(tally.drop_last());
        let weight = tally.last();
        if weight > before.max {
            Scan { max: weight, max_index: tally.len() - 1, tie: false }
        } else if weight == before.max {
            Scan { max: before.max, max_index: before.max_index, tie: true }
        } else {
            before
        }
    }
}

/// What the scan answers: nothing where it ended in a tie, else the option it remembers.
pub open spec fn scan_result(tally: Seq<u128>) -> Option<int> {
    let s = scan(tally);
    if s.tie {
        None
    } else {
        Some(s.max_index)
    }
}

/// What the scan of a tally has seen, said without the scan: its largest weight, where that
/// weight first stands, and whether it stands there alone.
pub open spec fn scan_summary(tally: Seq<u128>, s: Scan) -> bool {
    &&& forall|j: int| 0 <= j < tally.len() ==> tally[j] <= s.max
    &&& s.max == 0 ==> s.max_index == 0 && (s.tie <==> tally.len() > 0)
    &&& s.max > 0 ==> {
        &&& 0 <= s.max_index < tally.len()
        &&& tally[s.max_index] == s.max
        &&& forall|j: int| 0 <= j < s.max_index ==> tally[j] < s.max
        &&& s.tie <==> exists|j: int| s.max_index < j < tally.len() && tally[j] == s.max
    }
}

/// The scan of a tally meets its summary.
pub proof fn lemma_scan_summary(tally: Seq<u128>)
    ensures
        scan_summary(tally, scan(tally)),
    decreases tally.len(),
{
    if tally.len() > 0 {
        let shorter = tally.drop_last();
        let before = scan(shorter);
        lemma_scan_summary(shorter);
        assert forall|j: int| 0 <= j < shorter.len() implies shorter[j] == tally[j] by {}
        let s = scan(tally);
        let last = tally.len() - 1;
        if tally.last() == before.max && before.max > 0 {
            assert(s.max_index < last && tally[last] == s.max);
        }
        if tally.last() < before.max && before.tie {
            let j = choose|j: int| before.max_index < j < shorter.len() && shorter[j] == before.max;
            assert(s.max_index < j < tally.len() && tally[j] == s.max);
        }
    }
}

/// At most one option leads.
pub proof fn lemma_leader_is_unique(tally: Seq<u128>, i: int, j: int)
    requires
        leads(tally, i),
        leads(tally, j),
    ensures
        i == j,
{
}

/// The scan from the left names the winner: for every tally its answer is the option that
/// leads, or nothing where none leads.
pub proof fn lemma_scan_names_the_winner(tally: Seq<u128>)
    ensures
        scan_result(tally) == winner(tally),
{
    lemma_scan_summary(tally);
    let s = scan(tally);
    if tally.len() > 0 {
        if s.tie {
            if exists|i: int| leads(tally, i) {
                let i = choose|i: int| leads(tally, i);
                if s.max > 0 {
                    let j = choose|j: int| s.max_index < j < tally.len() && tally[j] == s.max;
                    assert(tally[s.max_index] == tally[j]);
                } else {
                    assert(tally[i] <= s.max);
                }
                assert(false);
            }
        } else {
            assert(s.max > 0);
            assert forall|j: int| 0 <= j < tally.len() && j != s.max_index implies #[trigger] tally[j]
                < tally[s.max_index] by {
                if j > s.max_index && tally[j] == s.max {
                    assert(s.tie);
                }
            }
            assert(leads(tally, s.max_index));
            let i = choose|i: int| leads(tally, i);
            lemma_leader_is_unique(tally, i, s.max_index);
        }
    }
}

impl Votes {
    /// The tally of a new poll: `options_count` options, none with any weight.
    pub fn new(options_count: u8) -> (r: Self)
        ensures
            r.0@ == zeros(options_count as nat),
    {
        let mut tally: Vec<u128> = Vec::new();
        let mut i: u8 = 0;
        while i < options_count
            invariant
                i <= options_count,
                tally@ == zeros(i as nat),
            decreases options_count - i,
        {
            tally.push(0);
            i = i + 1;
        }
        Votes(tally)
    }

    /// Adds `weight` to what `option` has gathered. The sum stops at the largest weight
    /// there is; the other options keep what they have.
    pub fn add_weight(&mut self, option: u8, weight: u128)
        requires
            (option as int) < old(self).0@.len(),
        ensures
            final(self).0@ == old(self).0@.update(
                option as int,
                saturating_sum(old(self).0@[option as int], weight),
            ),
    {
        let index: usize = option as usize;
        let sum: u128 = self.0[index].saturating_add(weight);
        self.0.set(index, sum);
    }

    /// The winning option: the one that holds some weight and strictly more of it than every
    /// other option. `None` where the largest weight is shared or nobody has voted.
    ///
    /// The answer is found by one scan from option 0 upwards. Options are numbered by bytes,
    /// so the tally has at most 256 of them.
    pub fn winning_option(&self) -> (r: Option<u8>)
        requires
            self.0@.len() <= 256,
        ensures
            match r {
                Some(option) => winner(self.0@) == Some(option as int),
                None => winner(self.0@) is None,
            },
    {
        let mut max: u128 = 0;
        let mut max_index: usize = 0;
        let mut tie: bool = false;
        let mut index: usize = 0;
        while index < self.0.len()
            invariant
                index <= self.0@.len(),
                self.0@.len() <= 256,
                scan(self.0@.take(index as int)) == (Scan {
                    max,
                    max_index: max_index as int,
                    tie,
                }),
                max_index <= index,
            decreases self.0@.len() - index,
        {
            let value: u128 = self.0[index];
            proof {
                let longer = self.0@.take(index + 1);
                assert(longer.drop_last() == self.0@.take(index as int));
                assert(longer.last() == value);
            }
            if value > max {
                max = value;
                max_index = index;
                tie = false;
            } else if value == max {
                tie = true;
            }
            index = index + 1;
        }
        proof {
            assert(self.0@.take(index as int) == self.0@);
            lemma_scan_names_the_winner(self.0@);
            lemma_scan_summary(self.0@);
        }
        if tie {
            None
        } else {
            Some(max_index as u8)
        }
    }
}

} // verus!
