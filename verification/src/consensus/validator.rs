//! Stake-weighted validator consensus.

use crate::bounds::lemma_total_has_room;
use crate::keyed::{find, keys_of, lemma_position_none, position_of, Keyed};
use crate::score::{decay_towards, decayed_average, SCORE_ONE};
use crate::text::texts;
use vstd::prelude::*;
use vstd::string::*;

verus! {

/// The smallest stake with which a validator is accepted on a new network.
pub const DEFAULT_MIN_STAKE: u64 = 10000;

/// One validator. `reputation` and `accuracy_score` are in millionths.
pub struct ValidatorInfo {
    pub address: String,
    pub stake: u64,
    pub reputation: u64,
    pub actions_validated: u64,
    pub accuracy_score: u64,
}

/// What a validator record holds, as plain mathematical values.
pub struct ValidatorView {
    pub address: Seq<char>,
    pub stake: nat,
    pub reputation: nat,
    pub actions_validated: nat,
    pub accuracy_score: nat,
}

impl View for ValidatorInfo {
    type V = ValidatorView;

    open spec fn view(&self) -> ValidatorView {
        ValidatorView {
            address: self.address@,
            stake: self.stake as nat,
            reputation: self.reputation as nat,
            actions_validated: self.actions_validated as nat,
            accuracy_score: self.accuracy_score as nat,
        }
    }
}

/// The views of a sequence of validators, in order.
pub open spec fn validator_views(validators: Seq<ValidatorInfo>) -> Seq<ValidatorView> {
    validators.map_values(|v: ValidatorInfo| v@)
}

/// The validators of a network, in the order in which they joined, with the
/// stake that was ever added and the smallest stake accepted.
pub struct NetworkValidator {
    pub validators: Vec<ValidatorInfo>,
    pub total_stake: u64,
    pub min_stake: u64,
}

/// What a network holds, as plain mathematical values.
pub struct NetworkView {
    pub validators: Seq<ValidatorView>,
    pub total_stake: nat,
    pub min_stake: nat,
}

impl View for NetworkValidator {
    type V = NetworkView;

    open spec fn view(&self) -> NetworkView {
        NetworkView {
            validators: validator_views(self.validators@),
            total_stake: self.total_stake as nat,
            min_stake: self.min_stake as nat,
        }
    }
}

/// One vote: the address of the validator and its judgement.
pub type Vote = (String, bool);

/// The views of a sequence of votes, in order.
pub open spec fn vote_views(votes: Seq<(String, bool)>) -> Seq<(Seq<char>, bool)> {
    votes.map_values(|v: (String, bool)| (v.0@, v.1))
}

/// The addresses of a sequence of validators, in order.
pub open spec fn addresses(validators: Seq<ValidatorView>) -> Seq<Seq<char>> {
    validators.map_values(|v: ValidatorView| v.address)
}

impl Keyed for ValidatorInfo {
    open spec fn key(&self) -> Seq<char> {
        self.address@
    }

    fn key_text(&self) -> (text: &String) {
        &self.address
    }
}

/// A validator as it joins: full reputation and accuracy, nothing validated.
pub open spec fn joined_validator(address: Seq<char>, stake: nat) -> ValidatorView {
    ValidatorView {
        address,
        stake,
        reputation: SCORE_ONE as nat,
        actions_validated: 0,
        accuracy_score: SCORE_ONE as nat,
    }
}

/// The validators after `address` joined with `stake`: a record with the
/// same address is replaced, otherwise the new one comes last.
pub open spec fn with_validator(
    validators: Seq<ValidatorView>,
    address: Seq<char>,
    stake: nat,
) -> Seq<ValidatorView> {
    match position_of(addresses(validators), address) {
        Some(i) => validators.update(i, joined_validator(address, stake)),
        None => validators.push(joined_validator(address, stake)),
    }
}

/// The stake of all validators together.
pub open spec fn stake_sum(validators: Seq<ValidatorView>) -> nat
    decreases validators.len(),
{
    if validators.len() == 0 {
        0
    } else {
        stake_sum(validators.drop_last()) + validators.last().stake
    }
}

/// A validator is eligible when its stake is more than a tenth of `total`.
pub open spec fn eligible(v: ValidatorView, total: nat) -> bool {
    v.stake * 10 > total
}

/// The addresses of the validators that are eligible against `total`, in
/// order.
pub open spec fn eligible_addresses(validators: Seq<ValidatorView>, total: nat) -> Seq<Seq<char>>
    decreases validators.len(),
{
    if validators.len() == 0 {
        Seq::empty()
    } else {
        let before = eligible_addresses(validators.drop_last(), total);
        if eligible(validators.last(), total) {
            before.push(validators.last().address)
        } else {
            before
        }
    }
}

/// The selection: the first `count` of the eligible addresses, or all of
/// them if there are fewer.
pub open spec fn selection(validators: Seq<ValidatorView>, total: nat, count: nat) -> Seq<
    Seq<char>,
> {
    let all = eligible_addresses(validators, total);
    if all.len() <= count {
        all
    } else {
        all.take(count as int)
    }
}

/// `address` is the address of a validator whose stake is more than a
/// tenth of `total`.
pub open spec fn has_eligible_validator(
    validators: Seq<ValidatorView>,
    total: nat,
    address: Seq<char>,
) -> bool {
    exists|i: int|
        0 <= i < validators.len() && eligible(#[trigger] validators[i], total)
            && validators[i].address == address
}

/// Every eligible address is the address of a validator whose stake is
/// more than a tenth of `total`.
pub proof fn lemma_eligible_addresses_sound(validators: Seq<ValidatorView>, total: nat)
    ensures
        eligible_addresses(validators, total).len() <= validators.len(),
        forall|k: int|
            0 <= k < eligible_addresses(validators, total).len() ==> has_eligible_validator(
                validators,
                total,
                #[trigger] eligible_addresses(validators, total)[k],
            ),
    decreases validators.len(),
{
    if validators.len() > 0 {
        let init = validators.drop_last();
        lemma_eligible_addresses_sound(init, total);
        let before = eligible_addresses(init, total);
        let all = eligible_addresses(validators, total);
        assert forall|k: int| 0 <= k < all.len() implies has_eligible_validator(
            validators,
            total,
            #[trigger] all[k],
        ) by {
            if k < before.len() {
                let i = choose|i: int|
                    0 <= i < init.len() && eligible(#[trigger] init[i], total) && init[i].address
                        == before[k];
            } else {
                let i = validators.len() - 1;
            }
        }
    }
}

/// Nobody is selected with a tenth of the stake or less: every selected
/// address is the address of a validator whose stake is more than a tenth
/// of `total`, and at most `count` are selected.
pub proof fn lemma_selected_are_eligible(validators: Seq<ValidatorView>, total: nat, count: nat)
    ensures
        selection(validators, total, count).len() <= count,
        selection(validators, total, count).len() <= validators.len(),
        forall|k: int|
            0 <= k < selection(validators, total, count).len() ==> has_eligible_validator(
                validators,
                total,
                #[trigger] selection(validators, total, count)[k],
            ),
{
    lemma_eligible_addresses_sound(validators, total);
}

/// A validator with a tenth of the stake or less is not eligible.
pub proof fn lemma_tenth_is_not_eligible(v: ValidatorView, total: nat)
    requires
        v.stake * 10 <= total,
    ensures
        !eligible(v, total),
{
}

/// An exact tie is rejected, and so is every tally in which the yes-stake
/// is at most half of the stake that voted.
pub proof fn lemma_majority_is_strict(t: Tally)
    ensures
        majority(t) <==> 2 * t.yes_stake > t.total_stake,
        2 * t.yes_stake == t.total_stake ==> !majority(t),
{
}

/// A validator after it voted: one more action validated, and the accuracy
/// moved towards 1.0 by a yes and towards 0.0 by a no.
pub open spec fn voted(v: ValidatorView, is_valid: bool) -> ValidatorView {
    ValidatorView {
        actions_validated: v.actions_validated + 1,
        accuracy_score: decayed_average(
            v.accuracy_score,
            if is_valid {
                SCORE_ONE as nat
            } else {
                0
            },
        ),
        ..v
    }
}

/// The state of a count of votes: the validators as the votes so far have
/// left them, the stake that voted yes and the stake that voted at all.
pub struct Tally {
    pub validators: Seq<ValidatorView>,
    pub yes_stake: nat,
    pub total_stake: nat,
}

/// The tally after one more vote. A vote from an unknown address changes
/// nothing.
pub open spec fn cast_vote(t: Tally, vote: (Seq<char>, bool)) -> Tally {
    match position_of(addresses(t.validators), vote.0) {
        Some(i) => Tally {
            validators: t.validators.update(i, voted(t.validators[i], vote.1)),
            yes_stake: t.yes_stake + if vote.1 {
                t.validators[i].stake
            } else {
                0
            },
            total_stake: t.total_stake + t.validators[i].stake,
        },
        None => t,
    }
}

/// The tally after `votes`, in order.
pub open spec fn tally(validators: Seq<ValidatorView>, votes: Seq<(Seq<char>, bool)>) -> Tally
    decreases votes.len(),
{
    if votes.len() == 0 {
        Tally { validators, yes_stake: 0, total_stake: 0 }
    } else {
        cast_vote(tally(validators, votes.drop_last()), votes.last())
    }
}

/// A vote from an address that no validator has counts for nothing.
pub proof fn lemma_unknown_vote_changes_nothing(t: Tally, vote: (Seq<char>, bool))
    requires
        !addresses(t.validators).contains(vote.0),
    ensures
        cast_vote(t, vote) == t,
{
    lemma_position_none(addresses(t.validators), vote.0);
}

/// A tally leaves every validator its address, stake and reputation, adds
/// no validator and drops none, and never counts more stake for yes than
/// has voted.
pub proof fn lemma_tally_keeps_validators(
    validators: Seq<ValidatorView>,
    votes: Seq<(Seq<char>, bool)>,
)
    ensures
        tally(validators, votes).validators.len() == validators.len(),
        forall|i: int|
            0 <= i < validators.len() ==> {
                let after = #[trigger] tally(validators, votes).validators[i];
                &&& after.address == validators[i].address
                &&& after.stake == validators[i].stake
                &&& after.reputation == validators[i].reputation
            },
        tally(validators, votes).yes_stake <= tally(validators, votes).total_stake,
    decreases votes.len(),
{
    if votes.len() > 0 {
        lemma_tally_keeps_validators(validators, votes.drop_last());
        let before = tally(validators, votes.drop_last());
        lemma_position_none(addresses(before.validators), votes.last().0);
    }
}

/// Without votes nothing is accepted.
pub proof fn lemma_no_votes_reject(validators: Seq<ValidatorView>)
    ensures
        tally(validators, Seq::empty()) == (Tally { validators, yes_stake: 0, total_stake: 0 }),
        !majority(tally(validators, Seq::empty())),
{
}

/// An action is accepted when the stake that voted yes is strictly more
/// than half of the stake that voted.
pub open spec fn majority(t: Tally) -> bool {
    2 * t.yes_stake > t.total_stake
}

impl NetworkValidator {
    /// A network without validators that accepts stakes from
    /// [`DEFAULT_MIN_STAKE`] on.
    pub fn new() -> (network: Self)
        ensures
            network@ == (NetworkView {
                validators: Seq::empty(),
                total_stake: 0,
                min_stake: DEFAULT_MIN_STAKE as nat,
            }),
    {
        let network = NetworkValidator {
            validators: Vec::new(),
            total_stake: 0,
            min_stake: DEFAULT_MIN_STAKE,
        };
        assert(network@.validators =~= Seq::empty());
        network
    }

    /// The position of the validator with `address`.
    pub fn find_validator(&self, address: &str) -> (found: Option<usize>)
        ensures
            found is None <==> position_of(addresses(self@.validators), address@) is None,
            found matches Some(i) ==> i < self@.validators.len() && position_of(
                addresses(self@.validators),
                address@,
            ) == Some(i as int),
    {
        assert(keys_of(self.validators@) =~= addresses(self@.validators));
        find(self.validators.as_slice(), address)
    }

    /// Admits a validator whose stake is at least the minimum. A rejected
    /// validator changes nothing.
    pub fn add_validator(&mut self, address: String, stake: u64) -> (added: bool)
        requires
            stake >= old(self).min_stake ==> old(self).total_stake + stake <= u64::MAX,
        ensures
            added == (stake >= old(self)@.min_stake),
            !added ==> final(self)@ == old(self)@,
            added ==> final(self)@ == (NetworkView {
                validators: with_validator(old(self)@.validators, address@, stake as nat),
                total_stake: old(self)@.total_stake + stake as nat,
                min_stake: old(self)@.min_stake,
            }),
    {
        if stake < self.min_stake {
            return false;
        }
        let found: Option<usize> = self.find_validator(address.as_str());
        let validator = ValidatorInfo {
            address,
            stake,
            reputation: SCORE_ONE,
            actions_validated: 0,
            accuracy_score: SCORE_ONE,
        };
        match found {
            Some(i) => {
                self.validators.set(i, validator);
                assert(self@.validators =~= old(self)@.validators.update(
                    i as int,
                    validator@,
                ));
            },
            None => {
                self.validators.push(validator);
                assert(self@.validators =~= old(self)@.validators.push(validator@));
            },
        }
        self.total_stake = self.total_stake + stake;
        true
    }

    /// The stake of all validators together.
    pub fn total_weight(&self) -> (total: u128)
        ensures
            total == stake_sum(self@.validators),
    {
        let ghost views = validator_views(self.validators@);
        let mut total: u128 = 0;
        let mut i: usize = 0;
        while i < self.validators.len()
            invariant
                i <= self.validators.len(),
                views == validator_views(self.validators@),
                total == stake_sum(views.take(i as int)),
                total <= i * u64::MAX,
            decreases self.validators.len() - i,
        {
            proof {
                assert(views.take(i + 1).drop_last() =~= views.take(i as int));
                lemma_total_has_room(i as nat, u64::MAX as nat);
            }
            total = total + self.validators[i].stake as u128;
            i = i + 1;
        }
        assert(views.take(self.validators.len() as int) =~= views);
        total
    }

    /// Selects up to `count` validators, in joining order, whose stake is
    /// more than a tenth of the stake of all validators together.
    pub fn select_validators(&self, count: usize) -> (selected: Vec<String>)
        ensures
            texts(selected@) == selection(
                self@.validators,
                stake_sum(self@.validators),
                count as nat,
            ),
            selected@.len() <= count,
            forall|k: int|
                0 <= k < selected@.len() ==> has_eligible_validator(
                    self@.validators,
                    stake_sum(self@.validators),
                    (#[trigger] selected@[k])@,
                ),
    {
        proof {
            lemma_selected_are_eligible(
                self@.validators,
                stake_sum(self@.validators),
                count as nat,
            );
        }
        let total: u128 = self.total_weight();
        let ghost views = validator_views(self.validators@);
        let mut selected: Vec<String> = Vec::new();
        let mut i: usize = 0;
        while i < self.validators.len()
            invariant
                i <= self.validators.len(),
                views == validator_views(self.validators@),
                selected@.len() <= count,
                texts(selected@) == selection(
                    views.take(i as int),
                    total as nat,
                    count as nat,
                ),
            decreases self.validators.len() - i,
        {
            let validator: &ValidatorInfo = &self.validators[i];
            let ghost before = texts(selected@);
            proof {
                assert(views.take(i + 1).drop_last() =~= views.take(i as int));
            }
            if (validator.stake as u128) * 10 > total && selected.len() < count {
                selected.push(validator.address.clone());
                assert(texts(selected@) =~= before.push(validator@.address));
            }
            i = i + 1;
        }
        assert(views.take(self.validators.len() as int) =~= views);
        assert forall|k: int| 0 <= k < selected@.len() implies has_eligible_validator(
            self@.validators,
            stake_sum(self@.validators),
            (#[trigger] selected@[k])@,
        ) by {
            assert(texts(selected@)[k] == selected@[k]@);
        }
        selected
    }

    /// Tallies stake-weighted votes on the action `action_id`. Votes from
    /// unknown addresses are ignored. Every vote of a known validator counts
    /// its stake, adds one to its validated actions and moves its accuracy.
    /// The action is accepted when the stake that voted yes is strictly more
    /// than half of the stake that voted.
    pub fn validate_action_consensus(&mut self, action_id: &str, validations: Vec<Vote>) -> (accepted:
        bool)
        requires
            forall|i: int|
                0 <= i < old(self).validators@.len() ==> (
                #[trigger] old(self).validators@[i]).actions_validated + validations@.len()
                    <= u64::MAX,
        ensures
            final(self)@ == (NetworkView {
                validators: tally(old(self)@.validators, vote_views(validations@)).validators,
                ..old(self)@
            }),
            accepted == majority(tally(old(self)@.validators, vote_views(validations@))),
    {
        let ghost start = validator_views(self.validators@);
        let ghost votes = vote_views(validations@);
        let mut yes_stake: u128 = 0;
        let mut total_stake: u128 = 0;
        let mut k: usize = 0;
        while k < validations.len()
            invariant
                k <= validations.len(),
                votes == vote_views(validations@),
                start == old(self)@.validators,
                self.total_stake == old(self).total_stake,
                self.min_stake == old(self).min_stake,
                self.validators@.len() == old(self).validators@.len(),
                forall|i: int|
                    0 <= i < self.validators@.len() ==> (
                    #[trigger] self.validators@[i]).actions_validated + (validations@.len() - k)
                        <= u64::MAX,
                tally(start, votes.take(k as int)) == (Tally {
                    validators: validator_views(self.validators@),
                    yes_stake: yes_stake as nat,
                    total_stake: total_stake as nat,
                }),
                yes_stake <= total_stake <= k * u64::MAX,
            decreases validations.len() - k,
        {
            let vote: &Vote = &validations[k];
            let ghost before = validator_views(self.validators@);
            proof {
                assert(votes.take(k + 1).drop_last() =~= votes.take(k as int));
                lemma_total_has_room(k as nat, u64::MAX as nat);
            }
            match self.find_validator(vote.0.as_str()) {
                Some(i) => {
                    let stake: u64 = self.validators[i].stake;
                    let sample: u64 = if vote.1 {
                        SCORE_ONE
                    } else {
                        0
                    };
                    let accuracy: u64 = decay_towards(self.validators[i].accuracy_score, sample);
                    self.validators[i].actions_validated = self.validators[i].actions_validated
                        + 1;
                    self.validators[i].accuracy_score = accuracy;
                    total_stake = total_stake + stake as u128;
                    if vote.1 {
                        yes_stake = yes_stake + stake as u128;
                    }
                    assert(validator_views(self.validators@) =~= before.update(
                        i as int,
                        voted(before[i as int], vote.1),
                    ));
                },
                None => {},
            }
            k = k + 1;
        }
        assert(votes.take(validations.len() as int) =~= votes);
        yes_stake > total_stake - yes_stake
    }
}

} // verus!
