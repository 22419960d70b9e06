//! What holds between the functions of this library.
use crate::bitcoin::{BitcoinTransaction, BitcoinTxOutput};
use crate::epoch::StacksEpochId;
use crate::error::{BitcoinError, Cause, DBError, Error, OpError};
use crate::hash::{BurnchainHeaderHash, Txid};
use crate::pox::PoxConstants;
use crate::pox_id::PoxId;
use crate::transaction::{BurnchainRecipient, BurnchainTransaction};
use crate::view::BurnchainView;
use std::cmp::Ordering;
use vstd::arithmetic::div_mod::{
    lemma_div_is_ordered, lemma_fundamental_div_mod, lemma_fundamental_div_mod_converse,
};
use vstd::prelude::*;

verus! {

/// Counting from `first`, heights fall into stretches of `cycle_length` blocks. A height that
/// is `offset` blocks into stretch `cycle` has that cycle active and that place in it, and it
/// starts a reward cycle exactly where `offset` is 1.
pub proof fn height_splits_into_cycle_and_offset(
    first: int,
    cycle_length: int,
    cycle: int,
    offset: int,
)
    requires
        cycle >= 0,
        0 <= offset < cycle_length,
    ensures
        crate::pox::reward_cycle_at(first, cycle_length, first + cycle * cycle_length + offset)
            == Some(cycle),
        crate::pox::reward_index(first, cycle_length, first + cycle * cycle_length + offset)
            == offset,
        crate::pox::starts_reward_cycle(first, cycle_length, first + cycle * cycle_length + offset)
            <==> offset == 1,
{
    assert(cycle * cycle_length >= 0) by (nonlinear_arith)
        requires
            cycle >= 0,
            cycle_length > 0,
    ;
    lemma_fundamental_div_mod_converse(
        cycle * cycle_length + offset,
        cycle_length,
        cycle,
        offset,
    );
}

/// No reward cycle is active before the first block.
pub proof fn no_cycle_before_first_block(first: int, cycle_length: int, height: int)
    requires
        height < first,
    ensures
        crate::pox::reward_cycle_at(first, cycle_length, height) is None,
{
}

/// Reward cycle 0 starts with the block after the first one, and each cycle starts
/// `cycle_length` blocks after the one before it.
pub proof fn cycle_starts_are_evenly_spaced(first: int, cycle_length: int, cycle: int)
    ensures
        crate::pox::reward_cycle_start(first, cycle_length, 0) == first + 1,
        crate::pox::reward_cycle_start(first, cycle_length, cycle + 1)
            - crate::pox::reward_cycle_start(first, cycle_length, cycle) == cycle_length,
{
    assert((cycle + 1) * cycle_length == cycle * cycle_length + cycle_length) by (nonlinear_arith);
}

/// The first block of a reward cycle lies in that cycle and starts it: going from a cycle to
/// its first height and back gives the cycle again. Cycles have at least two blocks: the first
/// block of a cycle of a single block would lie in the next cycle.
pub proof fn first_height_of_cycle_lies_in_it(first: int, cycle_length: int, cycle: int)
    requires
        cycle_length >= 2,
        cycle >= 0,
    ensures
        crate::pox::reward_cycle_at(
            first,
            cycle_length,
            crate::pox::reward_cycle_start(first, cycle_length, cycle),
        ) == Some(cycle),
        crate::pox::starts_reward_cycle(
            first,
            cycle_length,
            crate::pox::reward_cycle_start(first, cycle_length, cycle),
        ),
{
    assert(cycle * cycle_length >= 0) by (nonlinear_arith)
        requires
            cycle >= 0,
            cycle_length >= 2,
    ;
    lemma_fundamental_div_mod_converse(cycle * cycle_length + 1, cycle_length, cycle, 1);
}

/// A block that starts a reward cycle is the first block of the cycle that is active there.
pub proof fn starting_height_is_first_of_its_cycle(first: int, cycle_length: int, height: int)
    requires
        cycle_length > 0,
        first <= height,
        crate::pox::starts_reward_cycle(first, cycle_length, height),
    ensures
        crate::pox::reward_cycle_at(first, cycle_length, height) matches Some(cycle)
            && crate::pox::reward_cycle_start(first, cycle_length, cycle) == height,
{
    lemma_fundamental_div_mod(height - first, cycle_length);
    vstd::arithmetic::mul::lemma_mul_is_commutative(cycle_length, (height - first) / cycle_length);
}

/// The heights at which a reward cycle is active are `cycle_length` consecutive ones, which
/// end just before the block that precedes the start of the next cycle.
pub proof fn cycle_is_active_on_one_stretch(
    first: int,
    cycle_length: int,
    cycle: int,
    height: int,
)
    requires
        cycle_length > 0,
        cycle >= 0,
    ensures
        crate::pox::reward_cycle_at(first, cycle_length, height) == Some(cycle) <==> (
        crate::pox::reward_cycle_start(first, cycle_length, cycle) - 1 <= height
            < crate::pox::reward_cycle_start(first, cycle_length, cycle + 1) - 1),
        crate::pox::reward_cycle_start(first, cycle_length, cycle + 1)
            == crate::pox::reward_cycle_start(first, cycle_length, cycle) + cycle_length,
{
    assert((cycle + 1) * cycle_length == cycle * cycle_length + cycle_length) by (nonlinear_arith);
    assert(cycle * cycle_length >= 0) by (nonlinear_arith)
        requires
            cycle >= 0,
            cycle_length > 0,
    ;
    let effective = height - first;
    if height >= first {
        lemma_fundamental_div_mod(effective, cycle_length);
        vstd::arithmetic::mul::lemma_mul_is_commutative(cycle_length, effective / cycle_length);
        if cycle * cycle_length <= effective < cycle * cycle_length + cycle_length {
            lemma_fundamental_div_mod_converse(
                effective,
                cycle_length,
                cycle,
                effective - cycle * cycle_length,
            );
        }
    }
}

/// The active reward cycle never goes back as the chain grows.
pub proof fn cycles_advance_with_height(first: int, cycle_length: int, lower: int, higher: int)
    requires
        cycle_length > 0,
        first <= lower <= higher,
    ensures
        crate::pox::reward_cycle_at(first, cycle_length, lower)->0 <= crate::pox::reward_cycle_at(
            first,
            cycle_length,
            higher,
        )->0,
{
    lemma_div_is_ordered(lower - first, higher - first, cycle_length);
}

/// The prepare phase is exactly the last `prepare_length` blocks before the start of the next
/// reward cycle. It has at least one block; with a length of 0 the last block of a cycle would
/// still count as one of it.
pub proof fn prepare_phase_ends_the_cycle(
    first: int,
    cycle_length: int,
    prepare_length: int,
    cycle: int,
    offset: int,
)
    requires
        0 < prepare_length <= cycle_length,
        cycle >= 0,
        0 <= offset < cycle_length,
    ensures
        crate::pox::in_prepare_phase(
            first,
            cycle_length,
            prepare_length,
            crate::pox::reward_cycle_start(first, cycle_length, cycle) + offset,
        ) <==> offset >= cycle_length - prepare_length,
{
    assert(cycle * cycle_length >= 0) by (nonlinear_arith)
        requires
            cycle >= 0,
            cycle_length > 0,
    ;
    let effective = cycle * cycle_length + 1 + offset;
    if offset + 1 < cycle_length {
        lemma_fundamental_div_mod_converse(effective, cycle_length, cycle, offset + 1);
    } else {
        assert((cycle + 1) * cycle_length == cycle * cycle_length + cycle_length)
            by (nonlinear_arith);
        lemma_fundamental_div_mod_converse(effective, cycle_length, cycle + 1, 0);
    }
}

/// Counting from `first`, the prepare phases are the last `prepare_length` blocks up to and
/// with each multiple of the cycle length. The multiple itself is in one however long the
/// phase is; no height up to `first` is.
pub proof fn prepare_phase_leads_up_to_each_multiple(
    first: int,
    cycle_length: int,
    prepare_length: int,
    cycle: int,
    remaining: int,
    height: int,
)
    requires
        cycle >= 0,
        0 <= remaining < cycle_length,
        height == first + (cycle + 1) * cycle_length - remaining,
    ensures
        remaining == 0 ==> crate::pox::in_prepare_phase(
            first,
            cycle_length,
            prepare_length,
            height,
        ),
        remaining > 0 ==> (crate::pox::in_prepare_phase(
            first,
            cycle_length,
            prepare_length,
            height,
        ) <==> remaining < prepare_length),
{
    assert((cycle + 1) * cycle_length == cycle * cycle_length + cycle_length) by (nonlinear_arith);
    assert(cycle * cycle_length >= 0) by (nonlinear_arith)
        requires
            cycle >= 0,
            cycle_length > 0,
    ;
    if remaining == 0 {
        lemma_fundamental_div_mod_converse(height - first, cycle_length, cycle + 1, 0);
    } else {
        lemma_fundamental_div_mod_converse(
            height - first,
            cycle_length,
            cycle,
            cycle_length - remaining,
        );
    }
}

/// There is no prepare phase up to and with the first block.
pub proof fn no_prepare_phase_up_to_first_block(
    first: int,
    cycle_length: int,
    prepare_length: int,
    height: int,
)
    requires
        height <= first,
    ensures
        !crate::pox::in_prepare_phase(first, cycle_length, prepare_length, height),
{
}

/// The block that starts a reward cycle is not in a prepare phase.
pub proof fn cycle_start_is_not_in_prepare_phase(
    first: int,
    cycle_length: int,
    prepare_length: int,
    height: int,
)
    requires
        prepare_length < cycle_length,
        first <= height,
        crate::pox::starts_reward_cycle(first, cycle_length, height),
    ensures
        !crate::pox::in_prepare_phase(first, cycle_length, prepare_length, height),
{
}

/// The reward slots of a cycle are the outputs of the commits in its blocks outside the
/// prepare phase.
pub proof fn slots_are_outputs_outside_prepare_phase(
    parameters: crate::pox::PoxParameters,
    first: int,
    cycle: int,
)
    requires
        0 < parameters.prepare_length <= parameters.reward_cycle_length,
        cycle >= 0,
    ensures
        ({
            let start = crate::pox::reward_cycle_start(
                first,
                parameters.reward_cycle_length,
                cycle,
            );
            let paying = Set::new(
                |height: int|
                    start <= height < start + parameters.reward_cycle_length
                        && !crate::pox::in_prepare_phase(
                        first,
                        parameters.reward_cycle_length,
                        parameters.prepare_length,
                        height,
                    ),
            );
            paying.finite() && parameters.slots() == paying.len()
                * crate::constants::OUTPUTS_PER_COMMIT
        }),
{
    let length = parameters.reward_cycle_length;
    let start = crate::pox::reward_cycle_start(first, length, cycle);
    let end = start + length - parameters.prepare_length;
    let paying = Set::new(
        |height: int|
            start <= height < start + length && !crate::pox::in_prepare_phase(
                first,
                length,
                parameters.prepare_length,
                height,
            ),
    );
    assert forall|height: int| #[trigger]
        paying.contains(height) <==> vstd::set_lib::set_int_range(start, end).contains(height) by {
        if start <= height < start + length {
            prepare_phase_ends_the_cycle(
                first,
                length,
                parameters.prepare_length,
                cycle,
                height - start,
            );
        }
    }
    assert(paying =~= vstd::set_lib::set_int_range(start, end));
    vstd::set_lib::lemma_int_range(start, end);
}

/// The reward slots of a cycle and the outputs of its prepare phase make up the outputs of all
/// its blocks, two per block.
pub proof fn slots_and_prepare_outputs_make_the_cycle(parameters: crate::pox::PoxParameters)
    ensures
        parameters.slots() + 2 * parameters.prepare_length == 2 * parameters.reward_cycle_length,
{
}

/// Parameters are well formed exactly where more than half of a prepare phase has to confirm
/// the anchor, the prepare phase leaves some of the cycle over, and the sunset does not end
/// before it starts.
pub proof fn well_formed_means_sound(parameters: crate::pox::PoxParameters)
    ensures
        parameters.well_formed() <==> {
            &&& 2 * parameters.anchor_threshold > parameters.prepare_length
            &&& parameters.prepare_length >= 0
            &&& parameters.reward_cycle_length - parameters.prepare_length >= 1
            &&& parameters.sunset_end - parameters.sunset_start >= 0
        },
{
}

/// Each value of the parameters is the field of that name.
pub proof fn parameters_are_the_fields(constants: PoxConstants)
    ensures
        constants@.reward_cycle_length == constants.reward_cycle_length,
        constants@.prepare_length == constants.prepare_length,
        constants@.anchor_threshold == constants.anchor_threshold,
        constants@.pox_rejection_fraction == constants.pox_rejection_fraction,
        constants@.pox_participation_threshold_pct == constants.pox_participation_threshold_pct,
        constants@.sunset_start == constants.sunset_start,
        constants@.sunset_end == constants.sunset_end,
        constants@.v1_unlock_height == constants.v1_unlock_height,
{
}

/// Two blocks that share the confirmations of one prepare phase cannot both become its anchor.
pub proof fn anchor_block_is_unique(
    parameters: crate::pox::PoxParameters,
    confirmations: int,
    other_confirmations: int,
)
    requires
        parameters.well_formed(),
        confirmations + other_confirmations <= parameters.prepare_length,
        confirmations >= parameters.anchor_threshold,
    ensures
        other_confirmations < parameters.anchor_threshold,
{
}

/// The active PoX contract changes once, from the first to the second, and never back: up to
/// and with the unlock height it is `pox`, at every later height `pox-2`, which differ.
pub proof fn contract_changes_once(v1_unlock_height: int, until: int, after: int)
    requires
        until <= v1_unlock_height < after,
    ensures
        crate::pox::active_contract(v1_unlock_height, until) == "pox"@,
        crate::pox::active_contract(v1_unlock_height, after) == "pox-2"@,
        "pox"@ != "pox-2"@,
{
    reveal_strlit("pox");
    reveal_strlit("pox-2");
    assert("pox"@.len() != "pox-2"@.len());
}

/// Which contract is active depends only on how far the height is from the unlock height.
pub proof fn contract_depends_on_distance(v1_unlock_height: int, burn_height: int, shift: int)
    ensures
        crate::pox::active_contract(v1_unlock_height + shift, burn_height + shift)
            == crate::pox::active_contract(v1_unlock_height, burn_height),
{
}

/// A PoX sunset exists in the epochs before epoch 2.1 and only there.
pub proof fn sunset_exists_before_epoch_21(epoch: StacksEpochId)
    ensures
        crate::pox::sunset_exists(epoch) <==> (epoch is Epoch10 || epoch is Epoch20
            || epoch is Epoch2_05),
        crate::pox::sunset_exists(epoch) <==> epoch !is Epoch21,
{
}

/// In every epoch before 2.1 the sunset is over from `sunset_end` on and not a block earlier,
/// and it has started from `sunset_start` on and not a block earlier.
pub proof fn sunset_starts_and_ends_on_time(
    parameters: crate::pox::PoxParameters,
    blocks: nat,
    epoch: StacksEpochId,
)
    requires
        epoch !is Epoch21,
    ensures
        parameters.sunset_ended(parameters.sunset_end + blocks, epoch),
        !parameters.sunset_ended(parameters.sunset_end - 1 - blocks, epoch),
        parameters.sunset_started(parameters.sunset_start + blocks, epoch),
        !parameters.sunset_started(parameters.sunset_start - 1 - blocks, epoch),
{
}

/// The epochs follow each other in this order.
pub proof fn epochs_are_in_order()
    ensures
        StacksEpochId::Epoch10.rank() < StacksEpochId::Epoch20.rank(),
        StacksEpochId::Epoch20.rank() < StacksEpochId::Epoch2_05.rank(),
        StacksEpochId::Epoch2_05.rank() < StacksEpochId::Epoch21.rank(),
{
}

/// Comparing two epochs gives their order in the chain's history.
pub proof fn epochs_compare_by_order(a: StacksEpochId, b: StacksEpochId)
    ensures
        vstd::std_specs::cmp::PartialOrdSpec::partial_cmp_spec(&a, &b) == Some(Ordering::Less) <==> a.rank() < b.rank(),
        vstd::std_specs::cmp::PartialOrdSpec::partial_cmp_spec(&a, &b) == Some(Ordering::Equal) <==> a == b,
        vstd::std_specs::cmp::PartialOrdSpec::partial_cmp_spec(&a, &b) == Some(Ordering::Greater) <==> b.rank()
            < a.rank(),
{
}

/// The PoX sunset ends no earlier than it starts.
pub proof fn sunset_starts_before_it_ends(
    parameters: crate::pox::PoxParameters,
    height: int,
    epoch: StacksEpochId,
)
    requires
        parameters.well_formed(),
        parameters.sunset_ended(height, epoch),
    ensures
        parameters.sunset_started(height, epoch),
{
}

/// Within an epoch, a sunset that has started or ended stays so as the chain grows.
pub proof fn sunset_is_never_undone(
    parameters: crate::pox::PoxParameters,
    lower: int,
    higher: int,
    epoch: StacksEpochId,
)
    requires
        lower <= higher,
    ensures
        parameters.sunset_started(lower, epoch) ==> parameters.sunset_started(higher, epoch),
        parameters.sunset_ended(lower, epoch) ==> parameters.sunset_ended(higher, epoch),
{
}

/// From epoch 2.1 on there is no sunset, at any height and under any parameters.
pub proof fn no_sunset_from_epoch_21(
    parameters: crate::pox::PoxParameters,
    height: int,
    epoch: StacksEpochId,
)
    requires
        epoch is Epoch21,
    ensures
        !parameters.sunset_started(height, epoch),
        !parameters.sunset_ended(height, epoch),
{
}

/// The threshold percentage decides: of a liquid supply of `100 * hundredth`, more than
/// `hundredth` times the percentage has to participate.
pub proof fn threshold_percentage_decides(
    parameters: crate::pox::PoxParameters,
    participating: int,
    hundredth: int,
)
    ensures
        parameters.suffices(participating, 100 * hundredth) <==> participating > hundredth
            * parameters.pox_participation_threshold_pct,
{
    assert((100 * hundredth) * parameters.pox_participation_threshold_pct == 100 * (hundredth
        * parameters.pox_participation_threshold_pct)) by (nonlinear_arith);
}

/// Only the share counts: multiplying both amounts by the same number changes nothing.
pub proof fn only_the_share_counts(
    parameters: crate::pox::PoxParameters,
    participating: int,
    liquid: int,
    factor: int,
)
    requires
        factor > 0,
    ensures
        parameters.suffices(factor * participating, factor * liquid) <==> parameters.suffices(
            participating,
            liquid,
        ),
{
    let pct = parameters.pox_participation_threshold_pct;
    let gap = participating * 100 - liquid * pct;
    assert((factor * participating) * 100 - (factor * liquid) * pct == factor * gap)
        by (nonlinear_arith)
        requires
            gap == participating * 100 - liquid * pct,
    ;
    assert(factor * gap > 0 <==> gap > 0) by (nonlinear_arith)
        requires
            factor > 0,
    ;
}

/// More participation, or less liquid supply, never turns a sufficient share into one that is
/// not.
pub proof fn participation_is_monotone(
    parameters: crate::pox::PoxParameters,
    participating: int,
    liquid: int,
    more_participating: int,
    less_liquid: int,
)
    requires
        parameters.pox_participation_threshold_pct >= 0,
        participating <= more_participating,
        less_liquid <= liquid,
        parameters.suffices(participating, liquid),
    ensures
        parameters.suffices(more_participating, less_liquid),
{
    assert(less_liquid * parameters.pox_participation_threshold_pct <= liquid
        * parameters.pox_participation_threshold_pct) by (nonlinear_arith)
        requires
            parameters.pox_participation_threshold_pct >= 0,
            less_liquid <= liquid,
    ;
}

/// Parameters that are found under a chain name and a network name carry these names.
pub proof fn known_parameters_carry_their_names(chain: Seq<char>, network: Seq<char>)
    ensures
        crate::params::known_parameters(chain, network) matches Some(p) ==> p.chain_name == chain
            && p.network_name == network,
{
}

/// Parameters are known for the main, test and regression-test network of bitcoin, each its
/// own, and for nothing else.
pub proof fn three_bitcoin_networks_are_known(chain: Seq<char>, network: Seq<char>)
    ensures
        crate::params::known_parameters(chain, network) is Some <==> chain == "bitcoin"@ && (network
            == "mainnet"@ || network == "testnet"@ || network == "regtest"@),
        crate::params::known_parameters("bitcoin"@, "mainnet"@) == Some(crate::params::mainnet()),
        crate::params::known_parameters("bitcoin"@, "testnet"@) == Some(crate::params::testnet()),
        crate::params::known_parameters("bitcoin"@, "regtest"@) == Some(crate::params::regtest()),
{
    reveal_strlit("mainnet");
    reveal_strlit("testnet");
    reveal_strlit("regtest");
    assert("mainnet"@[0] != "testnet"@[0]);
    assert("mainnet"@[0] != "regtest"@[0]);
    assert("testnet"@[0] != "regtest"@[0]);
}

/// Exactly the ids of the test and of the regression-test network are those of a network
/// without real value, whatever number is asked about.
pub proof fn test_network_ids_are_two(network_id: u32)
    ensures
        crate::params::is_test_network(network_id) <==> (network_id
            == crate::params::testnet().network_id || network_id
            == crate::params::regtest().network_id),
        crate::params::testnet().network_id == 0x0709110B,
        crate::params::regtest().network_id == 0xDAB5BFFA,
        crate::params::mainnet().network_id == 0xD9B4BEF9,
{
}

/// Of the known networks, all but the main one are networks without real value.
pub proof fn only_mainnet_is_no_testnet(chain: Seq<char>, network: Seq<char>)
    ensures
        crate::params::known_parameters(chain, network) matches Some(p)
            ==> crate::params::is_test_network(p.network_id) == (network
            != crate::constants::BITCOIN_MAINNET_NAME@),
{
    reveal_strlit("mainnet");
    reveal_strlit("testnet");
    reveal_strlit("regtest");
    assert("mainnet"@[0] != "testnet"@[0]);
    assert("mainnet"@[0] != "regtest"@[0]);
}

/// On every known network the initial reward period starts no later than the first block.
pub proof fn initial_rewards_start_by_first_block(chain: Seq<char>, network: Seq<char>)
    ensures
        crate::params::known_parameters(chain, network) matches Some(p)
            ==> p.initial_reward_start_block <= p.first_block_height,
{
}

/// A transaction has one recipient slot per output. The slot is empty exactly where the address
/// of the output is not known, and otherwise holds that address and the amount of the output.
pub proof fn recipients_match_outputs(transaction: BurnchainTransaction, slot: int)
    requires
        0 <= slot < transaction.bitcoin().outputs@.len(),
    ensures
        transaction.recipients().len() == transaction.bitcoin().outputs@.len(),
        transaction.recipients()[slot] is None
            <==> transaction.bitcoin().outputs@[slot].address is None,
        transaction.recipients()[slot] matches Some(recipient)
            ==> transaction.bitcoin().outputs@[slot].address == Some(recipient.address)
            && transaction.bitcoin().outputs@[slot].units == recipient.amount,
{
}

/// The recipient of an output is paid at the very address, and the very amount, of the output.
pub proof fn recipient_is_paid_by_output(output: BitcoinTxOutput, recipient: BurnchainRecipient)
    ensures
        BurnchainRecipient::of_output(output) == Some(recipient) <==> (output.address == Some(
            recipient.address,
        ) && output.units == recipient.amount),
        BurnchainRecipient::of_output(output) is None <==> output.address is None,
{
}

/// A bitcoin transaction stays what it is inside a burnchain transaction.
pub proof fn bitcoin_transaction_is_kept(btc: BitcoinTransaction)
    ensures
        BurnchainTransaction::Bitcoin(btc).bitcoin() == btc,
{
}

/// A view covers the heights up to the tip that are at most 288 blocks behind the stable block.
pub proof fn view_covers_heights_near_stable_block(view: BurnchainView, height: u64)
    ensures
        view.covers(height) <==> height <= view.burn_block_height && view.burn_stable_block_height
            - height <= 288,
        view.oldest_neighbor_height() >= 0,
        view.burn_stable_block_height >= 288 ==> view.burn_stable_block_height
            - view.oldest_neighbor_height() == 288,
        view.burn_stable_block_height <= 288 ==> view.oldest_neighbor_height() == 0,
{
}

/// A stand-in is used for every height but those of the stable block and of the tip, whose own
/// hashes are used, that of the stable block first.
pub proof fn stand_in_is_for_unknown_hashes(view: BurnchainView, height: u64, digest: Seq<u8>)
    ensures
        view.hash_or(view.burn_stable_block_height, digest) == view.burn_stable_block_hash@,
        view.burn_block_height != view.burn_stable_block_height ==> view.hash_or(
            view.burn_block_height,
            digest,
        ) == view.burn_block_hash@,
        height != view.burn_stable_block_height && height != view.burn_block_height
            ==> view.hash_or(height, digest) == digest,
{
}

/// Test data holds a hash for a height exactly where the height is not above the tip and at
/// most 288 blocks behind the stable block. Apart from the stable block and the tip, the hash is
/// the digest of the eight bytes that stand for the height, least significant first.
pub proof fn test_data_hashes_heights(
    view: BurnchainView,
    hashes: Map<u64, BurnchainHeaderHash>,
    height: u64,
    bytes: Seq<u8>,
)
    requires
        view.is_test_data(hashes),
        bytes.len() == 8,
        vstd::bytes::spec_u64_from_le_bytes(bytes) == height,
    ensures
        hashes.contains_key(height) <==> height <= view.burn_block_height
            && view.burn_stable_block_height - height <= 288,
        hashes.contains_key(height) && height != view.burn_stable_block_height && height
            != view.burn_block_height ==> hashes[height]@ == crate::digest::sha256_digest(bytes),
        hashes.contains_key(height) && height == view.burn_stable_block_height ==> hashes[height]@
            == view.burn_stable_block_hash@,
        hashes.contains_key(height) && height == view.burn_block_height && height
            != view.burn_stable_block_height ==> hashes[height]@ == view.burn_block_hash@,
{
    vstd::bytes::lemma_auto_spec_u64_to_from_le_bytes();
    assert(vstd::bytes::spec_u64_to_le_bytes(vstd::bytes::spec_u64_from_le_bytes(bytes)) == bytes);
    assert(hashes.contains_key(height) <==> view.covers(height));
}

/// A hash is its bytes.
pub proof fn hashes_are_their_bytes(hash: BurnchainHeaderHash, txid: Txid)
    ensures
        hash@ == hash.0@,
        txid@ == txid.0@,
{
}

/// The tip and the stable block of a view keep their own hashes in its test data; where they
/// are the same block, the stable one counts.
pub proof fn test_data_keeps_known_hashes(
    view: BurnchainView,
    hashes: Map<u64, BurnchainHeaderHash>,
)
    requires
        view.is_test_data(hashes),
        view.burn_stable_block_height <= view.burn_block_height,
    ensures
        hashes.contains_key(view.burn_stable_block_height),
        hashes[view.burn_stable_block_height]@ == view.burn_stable_block_hash@,
        hashes.contains_key(view.burn_block_height),
        view.burn_block_height != view.burn_stable_block_height
            ==> hashes[view.burn_block_height]@ == view.burn_block_hash@,
{
    assert(hashes.contains_key(view.burn_stable_block_height));
    assert(hashes.contains_key(view.burn_block_height));
}

/// The test data of a view is determined by the tip and the stable block alone: filling it in
/// again changes nothing.
pub proof fn test_data_is_determined(
    view: BurnchainView,
    again: BurnchainView,
    hashes: Map<u64, BurnchainHeaderHash>,
    hashes_again: Map<u64, BurnchainHeaderHash>,
)
    requires
        view.burn_block_height == again.burn_block_height,
        view.burn_block_hash == again.burn_block_hash,
        view.burn_stable_block_height == again.burn_stable_block_height,
        view.burn_stable_block_hash == again.burn_stable_block_hash,
        view.is_test_data(hashes),
        again.is_test_data(hashes_again),
    ensures
        hashes == hashes_again,
{
    assert forall|h: u64| #[trigger] hashes.contains_key(h) implies hashes[h]
        == hashes_again[h] by {
        assert(hashes_again.contains_key(h));
        assert(hashes[h].0@ =~= hashes_again[h].0@);
        assert(hashes[h].0 =~= hashes_again[h].0);
    }
    assert forall|h: u64| #[trigger] hashes.contains_key(h) == hashes_again.contains_key(h) by {
        assert(hashes_again.contains_key(h) <==> again.covers(h));
    }
    assert(hashes =~= hashes_again);
}

/// An error with another one behind it is shown as that one.
pub proof fn error_is_shown_as_its_cause(error: Error, text: String)
    ensures
        error.underlying() matches Some(cause) ==> (error.shown_as(text) <==> cause.shown_as(text)),
{
}

/// Errors of the bitcoin driver, of operations and of the database that come with a description
/// are shown as that description, whatever it is.
pub proof fn descriptions_are_shown_as_they_are(message: String, text: String)
    ensures
        Error::Bitcoin(BitcoinError(message)).shown_as(text) <==> text@ == message@,
        Error::DownloadError(BitcoinError(message)).shown_as(text) <==> text@ == message@,
        Error::OpError(OpError(message)).shown_as(text) <==> text@ == message@,
        Error::DBError(DBError::Other(message)).shown_as(text) <==> text@ == message@,
        DBError::Other(message).shown_as(text) <==> text@ == message@,
{
}

/// Errors of the file system and of the database engine are shown as they show themselves.
pub proof fn outside_errors_show_themselves(
    io: std::io::Error,
    engine: rusqlite::Error,
    text: String,
)
    ensures
        Error::FSError(io).shown_as(text) <==> vstd::string::to_string_from_display_ensures::<
            std::io::Error,
        >(&io, text),
        Error::DBError(DBError::SqliteError(engine)).shown_as(text)
            <==> vstd::string::to_string_from_display_ensures::<rusqlite::Error>(&engine, text),
{
}

/// Errors that carry nothing are shown as a fixed text each.
pub proof fn plain_errors_have_fixed_texts(text: String)
    ensures
        Error::UnsupportedBurnchain.shown_as(text) <==> text@ == "Unsupported burnchain"@,
        Error::ParseError.shown_as(text) <==> text@ == "Parse error"@,
        Error::MissingHeaders.shown_as(text) <==> text@ == "Missing block headers"@,
        Error::MissingParentBlock.shown_as(text) <==> text@ == "Missing parent block"@,
        Error::ThreadChannelError.shown_as(text) <==> text@ == "Error in thread channel"@,
        Error::BurnchainPeerBroken.shown_as(text) <==> text@
            == "Remote burnchain peer has misbehaved"@,
        Error::TrySyncAgain.shown_as(text) <==> text@ == "Try synchronizing again"@,
        Error::CoordinatorClosed.shown_as(text) <==> text@ == "ChainsCoordinator channel hung up"@,
{
}

/// The text of an unknown block ends in the 64 hexadecimal digits of its hash, so that the hash
/// can be read back from it.
pub proof fn unknown_block_can_be_read_back(block: BurnchainHeaderHash, text: String)
    requires
        Error::UnknownBlock(block).shown_as(text),
    ensures
        text@.len() == "Unknown burnchain block "@.len() + 64,
        text@.take("Unknown burnchain block "@.len() as int) == "Unknown burnchain block "@,
        crate::hex::hex_decode(text@.skip("Unknown burnchain block "@.len() as int)) == block@,
{
    let prefix = "Unknown burnchain block "@;
    assert(text@.take(prefix.len() as int) =~= prefix);
    assert(text@.skip(prefix.len() as int) =~= crate::hex::hex_encode(block@));
    crate::hex::decoding_inverts_encoding(block@);
}

/// The text on a PoX identifier that is not canonical has the digits of both, the first one
/// before the fixed words and the second one after them.
pub proof fn non_canonical_text_names_both(parent: PoxId, child: PoxId, text: String, i: int)
    requires
        Error::NonCanonicalPoxId(parent, child).shown_as(text),
    ensures
        ({
            let words = " is not a descendant of the canonical parent PoXId: "@;
            let end = parent@.len() + words.len();
            &&& text@.len() == end + child@.len()
            &&& text@.subrange(parent@.len() as int, end as int) == words
            &&& 0 <= i < parent@.len() ==> text@[i] == if parent@[i] {
                '1'
            } else {
                '0'
            }
            &&& 0 <= i < child@.len() ==> text@[end + i] == if child@[i] {
                '1'
            } else {
                '0'
            }
        }),
{
    let words = " is not a descendant of the canonical parent PoXId: "@;
    let end = parent@.len() + words.len();
    assert(text@.subrange(parent@.len() as int, end as int) =~= words);
}

/// An error that wraps another one has that one behind it, and no other error has any.
pub proof fn wrapped_errors_are_causes(error: Error)
    ensures
        error matches Error::Bitcoin(e) ==> error.underlying() == Some(Cause::Bitcoin(&e)),
        error matches Error::DownloadError(e) ==> error.underlying() == Some(Cause::Bitcoin(&e)),
        error matches Error::DBError(e) ==> error.underlying() == Some(Cause::DB(&e)),
        error matches Error::FSError(e) ==> error.underlying() == Some(Cause::FS(&e)),
        error matches Error::OpError(e) ==> error.underlying() == Some(Cause::Op(&e)),
        error.underlying() is Some ==> (error is Bitcoin || error is DownloadError || error is DBError
            || error is FSError || error is OpError),
{
}

/// A converted error carries what it was made from.
pub proof fn converted_errors_carry_their_source(
    engine: rusqlite::Error,
    db: DBError,
    btc: BitcoinError,
)
    ensures
        <Error as vstd::std_specs::convert::FromSpec<rusqlite::Error>>::from_spec(engine)
            == Error::DBError(DBError::SqliteError(engine)),
        <Error as vstd::std_specs::convert::FromSpec<DBError>>::from_spec(db) == Error::DBError(db),
        <Error as vstd::std_specs::convert::FromSpec<BitcoinError>>::from_spec(btc)
            == Error::Bitcoin(btc),
{
}

/// A failure of the database engine becomes the same error directly and by way of a
/// [`DBError`].
pub proof fn engine_failures_are_database_errors(e: rusqlite::Error)
    ensures
        <Error as vstd::std_specs::convert::FromSpec<rusqlite::Error>>::from_spec(e)
            == <Error as vstd::std_specs::convert::FromSpec<DBError>>::from_spec(
            DBError::SqliteError(e),
        ),
{
}

} // verus!
