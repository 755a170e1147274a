//! What holds of the registry whatever is asked of it, proved of the model that the
//! executable registry is held to.

use crate::model::{
    after_calls, counted, has_ballot, one_ballot_each, recorded, run, saturate, tally_sum, total_weight,
    weight_for, Ballot, Call, State,
};
use crate::poll::Poll;
use crate::types::{AccountId, Balance, BlockNumber, Error, PollCurrency, PollIndex, PollStatus};
use crate::votes::saturating_sum;
use vstd::prelude::*;

verus! {

/// A ballot more adds its weight to its own option and to no other.
pub proof fn lemma_weight_for_push(ballots: Seq<Ballot>, ballot: Ballot, option: u8)
    ensures
        weight_for(ballots.push(ballot), option) == weight_for(ballots, option) + (if ballot.option
            == option {
            ballot.weight as nat
        } else {
            0
        }),
{
    assert(ballots.push(ballot).drop_last() == ballots);
}

/// Adding to a weight that a tally holds gives what the tally holds of the sum.
pub proof fn lemma_saturating_sum(gathered: nat, weight: u128)
    ensures
        saturating_sum(saturate(gathered), weight) == saturate(gathered + weight as nat),
{
}

/// Creating a poll keeps the registry sound.
pub proof fn lemma_created_keeps_inv(
    s: State,
    who: AccountId,
    ipfs_cid: Seq<u8>,
    options_count: u8,
    currency: PollCurrency,
    start: BlockNumber,
    end: BlockNumber,
    min_balance: Balance,
    now: BlockNumber,
    issuance: Balance,
)
    requires
        s.inv(),
        s.create_refusal(options_count, currency, start, end, now, issuance, true) is None,
    ensures
        s.created(
            Poll::fresh(who, ipfs_cid, options_count, currency, start, end, min_balance),
        ).inv(),
{
    let poll = Poll::fresh(who, ipfs_cid, options_count, currency, start, end, min_balance);
    let after = s.created(poll);
    let poll_id = s.next_poll_id();
    assert(!s.ballots.contains_key(poll_id));
    assert forall|voter: AccountId| !s.votes.contains_key((voter, poll_id)) by {}
    assert(counted(poll.tally, Seq::empty()));
    assert(recorded(after.votes, poll_id, Seq::empty()));
    assert forall|a: PollCurrency, i: PollIndex| #[trigger]
        after.polls.contains_key((a, i)) implies {
        &&& 1 <= i <= after.poll_count
        &&& after.polls[(a, i)].wf()
        &&& after.polls[(a, i)].currency == a
        &&& after.ballots.contains_key(i)
        &&& counted(after.polls[(a, i)].tally, after.ballots[i])
    } by {
        if (a, i) != (currency, poll_id) {
            assert(s.polls.contains_key((a, i)));
        }
    }
    assert forall|i: PollIndex| #[trigger] after.ballots.contains_key(i) implies {
        &&& 1 <= i <= after.poll_count
        &&& one_ballot_each(after.ballots[i])
        &&& recorded(after.votes, i, after.ballots[i])
    } by {
        if i != poll_id {
            assert(s.ballots.contains_key(i));
        }
    }
}

/// A vote keeps the registry sound.
pub proof fn lemma_voted_keeps_inv(
    s: State,
    who: AccountId,
    currency: PollCurrency,
    poll_id: PollIndex,
    option: u8,
    now: BlockNumber,
    balance: Balance,
)
    requires
        s.inv(),
        s.vote_refusal(who, currency, poll_id, option, now, balance) is None,
    ensures
        s.voted(who, currency, poll_id, option, balance).inv(),
{
    let after = s.voted(who, currency, poll_id, option, balance);
    let key = (currency, poll_id);
    let poll = s.polls[key];
    let ballot = Ballot { voter: who, option, weight: balance };
    let before = s.ballots[poll_id];
    let cast = before.push(ballot);
    assert(s.polls.contains_key(key));
    assert(s.ballots.contains_key(poll_id));
    assert(after.ballots[poll_id] == cast);

    assert(counted(after.polls[key].tally, cast)) by {
        let tally = after.polls[key].tally;
        assert forall|o: u8| o < tally.len() implies tally[o as int] == saturate(
            #[trigger] weight_for(cast, o),
        ) by {
            lemma_weight_for_push(before, ballot, o);
            lemma_saturating_sum(weight_for(before, o), balance);
        }
    }
    assert(one_ballot_each(cast)) by {
        assert forall|j: int, k: int| 0 <= j < k < cast.len() implies (#[trigger] cast[j]).voter != (
        #[trigger] cast[k]).voter by {
            if k == before.len() {
                assert(before[j] == cast[j]);
                assert(s.votes.contains_key((before[j].voter, poll_id)));
            } else {
                assert(before[j] == cast[j] && before[k] == cast[k]);
            }
        }
    }
    assert(recorded(after.votes, poll_id, cast)) by {
        assert forall|k: int| 0 <= k < cast.len() implies {
            &&& after.votes.contains_key(((#[trigger] cast[k]).voter, poll_id))
            &&& after.votes[(cast[k].voter, poll_id)] == cast[k].option
        } by {
            if k < before.len() {
                assert(before[k] == cast[k]);
            }
        }
        assert forall|voter: AccountId| #[trigger]
            after.votes.contains_key((voter, poll_id)) implies has_ballot(cast, voter) by {
            if voter == who {
                assert(cast[before.len() as int].voter == who);
            } else {
                assert(s.votes.contains_key((voter, poll_id)));
                let k = choose|k: int| 0 <= k < before.len() && (#[trigger] before[k]).voter == voter;
                assert(cast[k] == before[k]);
            }
        }
    }
    assert forall|a: PollCurrency, i: PollIndex| #[trigger]
        after.polls.contains_key((a, i)) implies {
        &&& 1 <= i <= after.poll_count
        &&& after.polls[(a, i)].wf()
        &&& after.polls[(a, i)].currency == a
        &&& after.ballots.contains_key(i)
        &&& counted(after.polls[(a, i)].tally, after.ballots[i])
    } by {
        assert(s.polls.contains_key((a, i)));
    }
    assert forall|i: PollIndex| #[trigger] after.ballots.contains_key(i) implies {
        &&& 1 <= i <= after.poll_count
        &&& one_ballot_each(after.ballots[i])
        &&& recorded(after.votes, i, after.ballots[i])
    } by {
        assert(s.ballots.contains_key(i));
        if i != poll_id {
            assert(recorded(s.votes, i, s.ballots[i]));
            assert forall|voter: AccountId| #[trigger]
                after.votes.contains_key((voter, i)) implies has_ballot(after.ballots[i], voter) by {
                assert(s.votes.contains_key((voter, i)));
            }
        }
    }
    assert forall|voter: AccountId, i: PollIndex| #[trigger]
        after.votes.contains_key((voter, i)) implies after.ballots.contains_key(i) by {
        if (voter, i) != (who, poll_id) {
            assert(s.votes.contains_key((voter, i)));
        }
    }
}

/// Giving one poll a new state, new content or a new least balance keeps the registry
/// sound, as long as the poll stays well formed.
pub proof fn lemma_replaced_keeps_inv(s: State, currency: PollCurrency, poll_id: PollIndex, poll: Poll)
    requires
        s.inv(),
        s.polls.contains_key((currency, poll_id)),
        poll.wf(),
        poll.currency == currency,
        poll.tally == s.polls[(currency, poll_id)].tally,
    ensures
        (State { polls: s.polls.insert((currency, poll_id), poll), ..s }).inv(),
{
    let after = State { polls: s.polls.insert((currency, poll_id), poll), ..s };
    assert forall|a: PollCurrency, i: PollIndex| #[trigger]
        after.polls.contains_key((a, i)) implies {
        &&& 1 <= i <= after.poll_count
        &&& after.polls[(a, i)].wf()
        &&& after.polls[(a, i)].currency == a
        &&& after.ballots.contains_key(i)
        &&& counted(after.polls[(a, i)].tally, after.ballots[i])
    } by {
        assert(s.polls.contains_key((a, i)));
    }
}

/// Every call keeps the registry sound.
pub proof fn lemma_step_keeps_inv(s: State, call: Call)
    requires
        s.inv(),
    ensures
        s.step(call).inv(),
{
    if s.refusal(call) is None {
        match call {
            Call::CreatePoll {
                who,
                ipfs_cid,
                options_count,
                currency,
                start,
                end,
                min_balance,
                now,
                issuance,
                booked,
            } => {
                lemma_created_keeps_inv(
                    s,
                    who,
                    ipfs_cid,
                    options_count,
                    currency,
                    start,
                    end,
                    min_balance,
                    now,
                    issuance,
                );
            },
            Call::Vote { who, currency, poll_id, option, now, balance } => {
                lemma_voted_keeps_inv(s, who, currency, poll_id, option, now, balance);
            },
            Call::EnactPollEnd { currency, poll_id } => {
                lemma_replaced_keeps_inv(
                    s,
                    currency,
                    poll_id,
                    s.enacted(currency, poll_id).polls[(currency, poll_id)],
                );
            },
            Call::EmergencyCancel { currency, poll_id, now, .. } => {
                lemma_replaced_keeps_inv(
                    s,
                    currency,
                    poll_id,
                    s.cancelled(currency, poll_id, now).polls[(currency, poll_id)],
                );
            },
            Call::UpdatePoll { poll_id, ipfs_cid, currency, start, end, min_balance, .. } => {
                lemma_replaced_keeps_inv(
                    s,
                    currency,
                    poll_id,
                    s.updated(currency, poll_id, ipfs_cid, start, end, min_balance).polls[(
                        currency,
                        poll_id,
                    )],
                );
            },
        }
    }
}

/// The registry is sound after every sequence of calls.
pub proof fn lemma_run_is_sound(calls: Seq<Call>)
    ensures
        run(calls).inv(),
    decreases calls.len(),
{
    if calls.len() > 0 {
        lemma_run_is_sound(calls.drop_last());
        lemma_step_keeps_inv(run(calls.drop_last()), calls.last());
    }
}


/// Every poll that the registry keeps offers at least two options and has one tally entry
/// for each; while it is ongoing its window ends after it opens; and it is never in the
/// reserved state.
pub proof fn law_polls_are_well_formed(s: State, currency: PollCurrency, poll_id: PollIndex)
    requires
        s.inv(),
        s.polls.contains_key((currency, poll_id)),
    ensures
        s.polls[(currency, poll_id)].options_count > 1,
        s.polls[(currency, poll_id)].tally.len() == s.polls[(currency, poll_id)].options_count,
        s.polls[(currency, poll_id)].status matches PollStatus::Ongoing { start, end } ==> start
            <= end,
        !(s.polls[(currency, poll_id)].status is Failed),
{
}

/// A poll with fewer than two options is never created: the call is refused for its
/// options, whatever else it asks for and whatever the registry holds.
pub proof fn law_one_option_is_refused(s: State, call: Call)
    requires
        call matches Call::CreatePoll { options_count, .. } && options_count <= 1,
    ensures
        s.refusal(call) == Some(Error::InvalidPollOptions),
        s.step(call) == s,
{
}

/// A refused call changes nothing.
pub proof fn law_refusal_changes_nothing(s: State, call: Call)
    requires
        s.refusal(call) is Some,
    ensures
        s.step(call) == s,
{
}

/// An accepted vote adds the voter's weight to the option voted for, and to nothing else:
/// the other options of the poll and all other polls stay as they are, and the choice is
/// on record.
pub proof fn law_vote_counts_for_one_option(
    s: State,
    who: AccountId,
    currency: PollCurrency,
    poll_id: PollIndex,
    option: u8,
    now: BlockNumber,
    balance: Balance,
)
    requires
        s.inv(),
        s.vote_refusal(who, currency, poll_id, option, now, balance) is None,
    ensures
        ({
            let before = s.polls[(currency, poll_id)].tally;
            let after = s.step(Call::Vote { who, currency, poll_id, option, now, balance });
            let tally = after.polls[(currency, poll_id)].tally;
            &&& tally.len() == before.len()
            &&& tally[option as int] == saturating_sum(before[option as int], balance)
            &&& forall|other: int|
                0 <= other < tally.len() && other != option ==> tally[other] == before[other]
            &&& forall|key: (PollCurrency, PollIndex)|
                key != (currency, poll_id) ==> (after.polls.contains_key(key)
                    <==> s.polls.contains_key(key)) && after.polls[key] == s.polls[key]
            &&& after.votes.contains_key((who, poll_id))
            &&& after.votes[(who, poll_id)] == option
        }),
{
}

/// An account that is on record in a poll cannot vote there again: whatever it asks for,
/// the vote is refused and the registry, its tallies with it, stays as it is. The refusal
/// is `AlreadyVoted` wherever the poll is ongoing and open, has the option, and asks for
/// no more than the balance.
pub proof fn law_second_vote_is_refused(
    s: State,
    who: AccountId,
    currency: PollCurrency,
    poll_id: PollIndex,
    option: u8,
    now: BlockNumber,
    balance: Balance,
)
    requires
        s.inv(),
        s.votes.contains_key((who, poll_id)),
    ensures
        s.vote_refusal(who, currency, poll_id, option, now, balance) is Some,
        s.step(Call::Vote { who, currency, poll_id, option, now, balance }) == s,
        ({
            let poll = s.polls[(currency, poll_id)];
            &&& s.polls.contains_key((currency, poll_id))
            &&& poll.status matches PollStatus::Ongoing { start, end }
            &&& option < poll.options_count
            &&& now >= start
            &&& balance >= poll.min_balance
        }) ==> s.vote_refusal(who, currency, poll_id, option, now, balance) == Some(
            Error::AlreadyVoted,
        ),
{
}

/// Once a vote is accepted, the voter is on record with the option voted for.
pub proof fn law_vote_is_recorded(
    s: State,
    who: AccountId,
    currency: PollCurrency,
    poll_id: PollIndex,
    option: u8,
    now: BlockNumber,
    balance: Balance,
)
    requires
        s.vote_refusal(who, currency, poll_id, option, now, balance) is None,
    ensures
        ({
            let after = s.step(Call::Vote { who, currency, poll_id, option, now, balance });
            after.votes.contains_key((who, poll_id)) && after.votes[(who, poll_id)] == option
        }),
{
}

/// No call removes or changes a vote record.
pub proof fn law_records_are_kept(s: State, call: Call, who: AccountId, poll_id: PollIndex)
    requires
        s.inv(),
        s.votes.contains_key((who, poll_id)),
    ensures
        s.step(call).votes.contains_key((who, poll_id)),
        s.step(call).votes[(who, poll_id)] == s.votes[(who, poll_id)],
{
}

/// No call removes a poll, and none changes a poll that is closed or cancelled: a poll
/// leaves the ongoing state once, and then stays as it is.
pub proof fn law_closed_polls_stay(s: State, call: Call, currency: PollCurrency, poll_id: PollIndex)
    requires
        s.inv(),
        s.polls.contains_key((currency, poll_id)),
    ensures
        s.step(call).polls.contains_key((currency, poll_id)),
        !(s.polls[(currency, poll_id)].status is Ongoing) ==> s.step(call).polls[(
            currency,
            poll_id,
        )] == s.polls[(currency, poll_id)],
        s.step(call).polls[(currency, poll_id)].options_count == s.polls[(
            currency,
            poll_id,
        )].options_count,
        s.step(call).polls[(currency, poll_id)].created_by == s.polls[(
            currency,
            poll_id,
        )].created_by,
{
}

/// The counter never falls, and a poll that is created gets the identifier after it:
/// identifiers are not used twice.
pub proof fn law_identifiers_are_fresh(s: State, call: Call)
    requires
        s.inv(),
    ensures
        s.step(call).poll_count >= s.poll_count,
        call is CreatePoll && s.refusal(call) is None ==> {
            &&& s.step(call).poll_count == s.poll_count + 1
            &&& forall|currency: PollCurrency| !s.polls.contains_key((currency, s.next_poll_id()))
            &&& s.step(call).polls.contains_key((call->CreatePoll_currency, s.next_poll_id()))
        },
{
}

/// The weight that the ballots give to the first `n` options.
pub open spec fn options_weight(ballots: Seq<Ballot>, n: nat) -> nat
    decreases n,
{
    if n == 0 {
        0
    } else {
        options_weight(ballots, (n - 1) as nat) + weight_for(ballots, (n - 1) as u8)
    }
}

/// A ballot more adds its weight to the first `n` options where its option is among them.
proof fn lemma_options_weight_push(ballots: Seq<Ballot>, ballot: Ballot, n: nat)
    requires
        n <= 256,
    ensures
        options_weight(ballots.push(ballot), n) == options_weight(ballots, n) + (if ballot.option
            < n {
            ballot.weight as nat
        } else {
            0
        }),
    decreases n,
{
    if n > 0 {
        lemma_options_weight_push(ballots, ballot, (n - 1) as nat);
        lemma_weight_for_push(ballots, ballot, (n - 1) as u8);
    }
}

/// Without ballots no option has any weight.
proof fn lemma_options_weight_empty(n: nat)
    ensures
        options_weight(Seq::<Ballot>::empty(), n) == 0,
    decreases n,
{
    if n > 0 {
        lemma_options_weight_empty((n - 1) as nat);
    }
}

/// Where every ballot is for one of the first `n` options, these options hold the weight
/// of all the ballots.
proof fn lemma_options_weight_is_total(ballots: Seq<Ballot>, n: nat)
    requires
        n <= 256,
        forall|k: int| 0 <= k < ballots.len() ==> (#[trigger] ballots[k]).option < n,
    ensures
        options_weight(ballots, n) == total_weight(ballots),
    decreases ballots.len(),
{
    if ballots.len() == 0 {
        assert(ballots == Seq::<Ballot>::empty());
        lemma_options_weight_empty(n);
    } else {
        let before = ballots.drop_last();
        assert(ballots == before.push(ballots.last()));
        lemma_options_weight_is_total(before, n);
        lemma_options_weight_push(before, ballots.last(), n);
    }
}

/// No option holds more weight than all the ballots together.
proof fn lemma_weight_for_is_part(ballots: Seq<Ballot>, option: u8)
    ensures
        weight_for(ballots, option) <= total_weight(ballots),
    decreases ballots.len(),
{
    if ballots.len() > 0 {
        lemma_weight_for_is_part(ballots.drop_last(), option);
    }
}

/// The first `n` entries of a tally that counts the ballots sum to no more than the weight
/// that the ballots give to the first `n` options, and to exactly that weight where no
/// option was given more than a tally can hold.
proof fn lemma_tally_sums_options(tally: Seq<u128>, ballots: Seq<Ballot>, n: nat)
    requires
        n <= tally.len() <= 256,
        counted(tally, ballots),
    ensures
        tally_sum(tally.take(n as int)) <= options_weight(ballots, n),
        (forall|option: u8| option < n ==> #[trigger] weight_for(ballots, option) <= u128::MAX)
            ==> tally_sum(tally.take(n as int)) == options_weight(ballots, n),
    decreases n,
{
    if n > 0 {
        let shorter: nat = (n - 1) as nat;
        lemma_tally_sums_options(tally, ballots, shorter);
        assert(tally.take(n as int).drop_last() == tally.take(shorter as int));
        assert(tally.take(n as int).last() == tally[shorter as int]);
        assert(tally[shorter as int] == saturate(weight_for(ballots, shorter as u8)));
    }
}

/// Conservation. In every poll the ballots are those of the accounts on record, one for
/// each, and the tally counts them: its entries sum to no more than the weight of the
/// ballots, and to exactly that weight as long as the weight of all ballots together is one
/// that a tally can hold.
pub proof fn law_tally_conserves_weight(s: State, currency: PollCurrency, poll_id: PollIndex)
    requires
        s.inv(),
        s.polls.contains_key((currency, poll_id)),
    ensures
        one_ballot_each(s.ballots[poll_id]),
        recorded(s.votes, poll_id, s.ballots[poll_id]),
        counted(s.polls[(currency, poll_id)].tally, s.ballots[poll_id]),
        tally_sum(s.polls[(currency, poll_id)].tally) <= total_weight(s.ballots[poll_id]),
        total_weight(s.ballots[poll_id]) <= u128::MAX ==> tally_sum(
            s.polls[(currency, poll_id)].tally,
        ) == total_weight(s.ballots[poll_id]),
{
    let tally = s.polls[(currency, poll_id)].tally;
    let ballots = s.ballots[poll_id];
    assert(s.ballots.contains_key(poll_id));
    lemma_tally_sums_options(tally, ballots, tally.len());
    lemma_options_weight_is_total(ballots, tally.len());
    assert(tally.take(tally.len() as int) == tally);
    assert forall|option: u8| weight_for(ballots, option) <= total_weight(ballots) by {
        lemma_weight_for_is_part(ballots, option);
    }
}

/// Conservation holds after every sequence of calls, for every poll that the calls left.
pub proof fn law_every_run_conserves_weight(
    calls: Seq<Call>,
    currency: PollCurrency,
    poll_id: PollIndex,
)
    requires
        run(calls).polls.contains_key((currency, poll_id)),
    ensures
        one_ballot_each(run(calls).ballots[poll_id]),
        recorded(run(calls).votes, poll_id, run(calls).ballots[poll_id]),
        total_weight(run(calls).ballots[poll_id]) <= u128::MAX ==> tally_sum(
            run(calls).polls[(currency, poll_id)].tally,
        ) == total_weight(run(calls).ballots[poll_id]),
{
    lemma_run_is_sound(calls);
    law_tally_conserves_weight(run(calls), currency, poll_id);
}

/// An account that is on record stays on record through every sequence of calls.
pub proof fn lemma_record_outlasts_calls(s: State, calls: Seq<Call>, who: AccountId, poll_id: PollIndex)
    requires
        s.inv(),
        s.votes.contains_key((who, poll_id)),
    ensures
        after_calls(s, calls).inv(),
        after_calls(s, calls).votes.contains_key((who, poll_id)),
        after_calls(s, calls).votes[(who, poll_id)] == s.votes[(who, poll_id)],
    decreases calls.len(),
{
    if calls.len() > 0 {
        lemma_record_outlasts_calls(s, calls.drop_last(), who, poll_id);
        let before = after_calls(s, calls.drop_last());
        lemma_step_keeps_inv(before, calls.last());
        law_records_are_kept(before, calls.last(), who, poll_id);
    }
}

/// One vote for each account. Once a vote of `who` in a poll is accepted, whatever calls
/// follow, every further vote of `who` in that poll is refused and changes nothing.
pub proof fn law_one_vote_each(
    s: State,
    who: AccountId,
    currency: PollCurrency,
    poll_id: PollIndex,
    option: u8,
    now: BlockNumber,
    balance: Balance,
    later: Seq<Call>,
    again_option: u8,
    again_now: BlockNumber,
    again_balance: Balance,
)
    requires
        s.inv(),
        s.vote_refusal(who, currency, poll_id, option, now, balance) is None,
    ensures
        ({
            let voted = s.step(Call::Vote { who, currency, poll_id, option, now, balance });
            let then = after_calls(voted, later);
            let again = Call::Vote {
                who,
                currency,
                poll_id,
                option: again_option,
                now: again_now,
                balance: again_balance,
            };
            then.refusal(again) is Some && then.step(again) == then
        }),
{
    let first = Call::Vote { who, currency, poll_id, option, now, balance };
    lemma_step_keeps_inv(s, first);
    law_vote_is_recorded(s, who, currency, poll_id, option, now, balance);
    lemma_record_outlasts_calls(s.step(first), later, who, poll_id);
    law_second_vote_is_refused(
        after_calls(s.step(first), later),
        who,
        currency,
        poll_id,
        again_option,
        again_now,
        again_balance,
    );
}

} // verus!
