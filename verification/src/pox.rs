//! Proof-of-transfer parameters and the reward-cycle calendar that they define.
use crate::constants::{
    BITCOIN_MAINNET_FIRST_BLOCK_HEIGHT, BITCOIN_REGTEST_FIRST_BLOCK_HEIGHT,
    BITCOIN_TESTNET_FIRST_BLOCK_HEIGHT, OUTPUTS_PER_COMMIT, POX_1_NAME, POX_2_NAME,
    POX_PREPARE_WINDOW_LENGTH, POX_REWARD_CYCLE_LENGTH, POX_SUNSET_END, POX_SUNSET_START,
    POX_V1_MAINNET_EARLY_UNLOCK_HEIGHT, POX_V1_TESTNET_EARLY_UNLOCK_HEIGHT,
};
use crate::epoch::StacksEpochId;
use vstd::prelude::*;

verus! {

/// Parameters of proof of transfer (PoX).
///
/// Other crates make them with [`PoxConstants::new`].
#[derive(Debug, PartialEq)]
#[non_exhaustive]
pub struct PoxConstants {
    /// the length (in burn blocks) of the reward cycle
    pub reward_cycle_length: u32,
    /// the length (in burn blocks) of the prepare phase
    pub prepare_length: u32,
    /// the number of confirmations a PoX anchor block must
    ///  receive in order to become the anchor. must be at least > prepare_length/2
    pub anchor_threshold: u32,
    /// fraction of liquid STX that must vote to reject PoX for
    /// it to revert to PoB in the next reward cycle
    pub pox_rejection_fraction: u64,
    /// percentage of liquid STX that must participate for PoX
    ///  to occur
    pub pox_participation_threshold_pct: u64,
    /// last+1 block height of sunset phase
    pub sunset_end: u64,
    /// first block height of sunset phase
    pub sunset_start: u64,
    /// The auto unlock height for PoX v1 lockups before transition to PoX v2. This
    /// also defines the burn height at which PoX reward sets are calculated using
    /// PoX v2 rather than v1
    pub v1_unlock_height: u32,
}

/// The values of a set of PoX parameters, as mathematical integers.
pub ghost struct PoxParameters {
    pub reward_cycle_length: int,
    pub prepare_length: int,
    pub anchor_threshold: int,
    pub pox_rejection_fraction: int,
    pub pox_participation_threshold_pct: int,
    pub sunset_start: int,
    pub sunset_end: int,
    pub v1_unlock_height: int,
}

impl View for PoxConstants {
    type V = PoxParameters;

    open spec fn view(&self) -> PoxParameters {
        PoxParameters {
            reward_cycle_length: self.reward_cycle_length as int,
            prepare_length: self.prepare_length as int,
            anchor_threshold: self.anchor_threshold as int,
            pox_rejection_fraction: self.pox_rejection_fraction as int,
            pox_participation_threshold_pct: self.pox_participation_threshold_pct as int,
            sunset_start: self.sunset_start as int,
            sunset_end: self.sunset_end as int,
            v1_unlock_height: self.v1_unlock_height as int,
        }
    }
}

impl Clone for PoxConstants {
    fn clone(&self) -> (copy: PoxConstants)
        ensures
            copy == *self,
    {
        PoxConstants {
            reward_cycle_length: self.reward_cycle_length,
            prepare_length: self.prepare_length,
            anchor_threshold: self.anchor_threshold,
            pox_rejection_fraction: self.pox_rejection_fraction,
            pox_participation_threshold_pct: self.pox_participation_threshold_pct,
            sunset_end: self.sunset_end,
            sunset_start: self.sunset_start,
            v1_unlock_height: self.v1_unlock_height,
        }
    }
}

/// The place of `height` within its reward cycle, counted from 1, where the last block of a
/// cycle counts as 0. Heights are counted from `first`.
pub open spec fn reward_index(first: int, cycle_length: int, height: int) -> int
    recommends
        first <= height,
        0 < cycle_length,
{
    (height - first) % cycle_length
}

/// Whether `height` lies in the last `prepare_length` blocks of a reward cycle.
pub open spec fn in_prepare_phase(
    first: int,
    cycle_length: int,
    prepare_length: int,
    height: int,
) -> bool {
    &&& first < height
    &&& {
        ||| reward_index(first, cycle_length, height) == 0
        ||| reward_index(first, cycle_length, height) > cycle_length - prepare_length
    }
}

/// The reward cycle that is active at `height`, if `height` is not before `first`.
pub open spec fn reward_cycle_at(first: int, cycle_length: int, height: int) -> Option<int>
    recommends
        0 < cycle_length,
{
    if height < first {
        None
    } else {
        Some((height - first) / cycle_length)
    }
}

/// The number in `n`, if there is one, as a mathematical integer.
pub open spec fn as_int(n: Option<u64>) -> Option<int> {
    match n {
        Some(n) => Some(n as int),
        None => None,
    }
}

/// The height of the first block of reward cycle `cycle`.
pub open spec fn reward_cycle_start(first: int, cycle_length: int, cycle: int) -> int {
    first + cycle * cycle_length + 1
}

/// Whether `height` is the first block of a reward cycle.
pub open spec fn starts_reward_cycle(first: int, cycle_length: int, height: int) -> bool
    recommends
        first <= height,
        0 < cycle_length,
{
    reward_index(first, cycle_length, height) == 1
}

/// The name of the PoX contract that is active at `burn_height`.
pub open spec fn active_contract(v1_unlock_height: int, burn_height: int) -> Seq<char> {
    if burn_height > v1_unlock_height {
        POX_2_NAME@
    } else {
        POX_1_NAME@
    }
}

/// Whether the PoX sunset exists at all in `epoch_id`: only before epoch 2.1.
pub open spec fn sunset_exists(epoch_id: StacksEpochId) -> bool {
    epoch_id.rank() < StacksEpochId::Epoch21.rank()
}

impl PoxParameters {
    /// What every set of parameters made by [`PoxConstants::new`] satisfies.
    pub open spec fn well_formed(self) -> bool {
        &&& self.anchor_threshold > self.prepare_length / 2
        &&& 0 <= self.prepare_length < self.reward_cycle_length
        &&& self.sunset_start <= self.sunset_end
    }

    /// The number of reward outputs that one reward cycle can pay, all of them outside its
    /// prepare phase.
    pub open spec fn slots(self) -> int {
        (self.reward_cycle_length - self.prepare_length) * OUTPUTS_PER_COMMIT
    }

    /// Whether `participating` is more than the threshold percentage of `liquid`.
    pub open spec fn suffices(self, participating: int, liquid: int) -> bool {
        participating * 100 > liquid * self.pox_participation_threshold_pct
    }

    /// Whether the PoX sunset is over at `height`, in an epoch that has one.
    pub open spec fn sunset_ended(self, height: int, epoch_id: StacksEpochId) -> bool {
        sunset_exists(epoch_id) && height >= self.sunset_end
    }

    /// Whether the PoX sunset has begun at `height`, in an epoch that has one.
    pub open spec fn sunset_started(self, height: int, epoch_id: StacksEpochId) -> bool {
        sunset_exists(epoch_id) && self.sunset_start <= height
    }
}

impl PoxConstants {
    /// Parameters with the given values.
    pub fn new(
        reward_cycle_length: u32,
        prepare_length: u32,
        anchor_threshold: u32,
        pox_rejection_fraction: u64,
        pox_participation_threshold_pct: u64,
        sunset_start: u64,
        sunset_end: u64,
        v1_unlock_height: u32,
    ) -> (constants: PoxConstants)
        requires
            anchor_threshold > prepare_length / 2,
            prepare_length < reward_cycle_length,
            sunset_start <= sunset_end,
        ensures
            constants@.well_formed(),
            constants@ == (PoxParameters {
                reward_cycle_length: reward_cycle_length as int,
                prepare_length: prepare_length as int,
                anchor_threshold: anchor_threshold as int,
                pox_rejection_fraction: pox_rejection_fraction as int,
                pox_participation_threshold_pct: pox_participation_threshold_pct as int,
                sunset_start: sunset_start as int,
                sunset_end: sunset_end as int,
                v1_unlock_height: v1_unlock_height as int,
            }),
            constants.reward_cycle_length == reward_cycle_length,
            constants.prepare_length == prepare_length,
            constants.anchor_threshold == anchor_threshold,
            constants.pox_rejection_fraction == pox_rejection_fraction,
            constants.pox_participation_threshold_pct == pox_participation_threshold_pct,
            constants.sunset_start == sunset_start,
            constants.sunset_end == sunset_end,
            constants.v1_unlock_height == v1_unlock_height,
    {
        PoxConstants {
            reward_cycle_length,
            prepare_length,
            anchor_threshold,
            pox_rejection_fraction,
            pox_participation_threshold_pct,
            sunset_start,
            sunset_end,
            v1_unlock_height,
        }
    }

    /// Small parameters for experiments.
    pub fn test_default() -> (constants: PoxConstants)
        ensures
            constants@.well_formed(),
            constants@ == (PoxParameters {
                reward_cycle_length: 10,
                prepare_length: 5,
                anchor_threshold: 3,
                pox_rejection_fraction: 25,
                pox_participation_threshold_pct: 5,
                sunset_start: 5000,
                sunset_end: 10000,
                v1_unlock_height: u32::MAX as int,
            }),
    {
        // 20 reward slots; 10 prepare-phase slots
        PoxConstants::new(10, 5, 3, 25, 5, 5000, 10000, u32::MAX)
    }

    /// Returns the PoX contract that is "active" at the given burn block height
    pub fn static_active_pox_contract(v1_unlock_height: u64, burn_height: u64) -> (name:
        &'static str)
        ensures
            name@ == active_contract(v1_unlock_height as int, burn_height as int),
    {
        if burn_height > v1_unlock_height {
            POX_2_NAME
        } else {
            POX_1_NAME
        }
    }

    /// Returns the PoX contract that is "active" at the given burn block height
    pub fn active_pox_contract(&self, burn_height: u64) -> (name: &'static str)
        ensures
            name@ == active_contract(self@.v1_unlock_height, burn_height as int),
    {
        Self::static_active_pox_contract(self.v1_unlock_height as u64, burn_height)
    }

    /// The number of reward outputs that one reward cycle can pay.
    pub fn reward_slots(&self) -> (slots: u32)
        requires
            0 <= self@.slots() <= u32::MAX,
        ensures
            slots == self@.slots(),
    {
        (self.reward_cycle_length - self.prepare_length) * (OUTPUTS_PER_COMMIT as u32)
    }

    /// is participating_ustx enough to engage in PoX in the next reward cycle?
    pub fn enough_participation(&self, participating_ustx: u128, liquid_ustx: u128) -> (enough:
        bool)
        requires
            participating_ustx * 100 <= u128::MAX,
            liquid_ustx * self@.pox_participation_threshold_pct <= u128::MAX,
        ensures
            enough == self@.suffices(participating_ustx as int, liquid_ustx as int),
    {
        participating_ustx.checked_mul(100).unwrap() > liquid_ustx.checked_mul(
            self.pox_participation_threshold_pct as u128,
        ).unwrap()
    }

    /// The parameters of the main network.
    pub fn mainnet_default() -> (constants: PoxConstants)
        ensures
            constants@.well_formed(),
            constants@ == (PoxParameters {
                reward_cycle_length: POX_REWARD_CYCLE_LENGTH as int,
                prepare_length: POX_PREPARE_WINDOW_LENGTH as int,
                anchor_threshold: 80,
                pox_rejection_fraction: 25,
                pox_participation_threshold_pct: 5,
                sunset_start: BITCOIN_MAINNET_FIRST_BLOCK_HEIGHT + POX_SUNSET_START,
                sunset_end: BITCOIN_MAINNET_FIRST_BLOCK_HEIGHT + POX_SUNSET_END,
                v1_unlock_height: POX_V1_MAINNET_EARLY_UNLOCK_HEIGHT as int,
            }),
    {
        PoxConstants::new(
            POX_REWARD_CYCLE_LENGTH,
            POX_PREPARE_WINDOW_LENGTH,
            80,
            25,
            5,
            BITCOIN_MAINNET_FIRST_BLOCK_HEIGHT + POX_SUNSET_START,
            BITCOIN_MAINNET_FIRST_BLOCK_HEIGHT + POX_SUNSET_END,
            POX_V1_MAINNET_EARLY_UNLOCK_HEIGHT,
        )
    }

    /// The parameters of the test network, with cycles half as long as those of the main one.
    pub fn testnet_default() -> (constants: PoxConstants)
        ensures
            constants@.well_formed(),
            constants@ == (PoxParameters {
                reward_cycle_length: POX_REWARD_CYCLE_LENGTH as int / 2,
                prepare_length: POX_PREPARE_WINDOW_LENGTH as int / 2,
                anchor_threshold: 40,
                pox_rejection_fraction: 12,
                pox_participation_threshold_pct: 2,
                sunset_start: BITCOIN_TESTNET_FIRST_BLOCK_HEIGHT + POX_SUNSET_START,
                sunset_end: BITCOIN_TESTNET_FIRST_BLOCK_HEIGHT + POX_SUNSET_END,
                v1_unlock_height: POX_V1_TESTNET_EARLY_UNLOCK_HEIGHT as int,
            }),
    {
        PoxConstants::new(
            POX_REWARD_CYCLE_LENGTH / 2,  // 1050
            POX_PREPARE_WINDOW_LENGTH / 2,  // 50
            40,
            12,
            2,
            BITCOIN_TESTNET_FIRST_BLOCK_HEIGHT + POX_SUNSET_START,
            BITCOIN_TESTNET_FIRST_BLOCK_HEIGHT + POX_SUNSET_END,
            POX_V1_TESTNET_EARLY_UNLOCK_HEIGHT,
        )  // total liquid supply is 40000000000000000 uSTX
    }

    /// The parameters of a local regression-test network.
    pub fn regtest_default() -> (constants: PoxConstants)
        ensures
            constants@.well_formed(),
            constants@ == (PoxParameters {
                reward_cycle_length: 5,
                prepare_length: 1,
                anchor_threshold: 1,
                pox_rejection_fraction: 3333333333333333,
                pox_participation_threshold_pct: 1,
                sunset_start: BITCOIN_REGTEST_FIRST_BLOCK_HEIGHT + POX_SUNSET_START,
                sunset_end: BITCOIN_REGTEST_FIRST_BLOCK_HEIGHT + POX_SUNSET_END,
                v1_unlock_height: 1_000_000,
            }),
    {
        PoxConstants::new(
            5,
            1,
            1,
            3333333333333333,
            1,
            BITCOIN_REGTEST_FIRST_BLOCK_HEIGHT + POX_SUNSET_START,
            BITCOIN_REGTEST_FIRST_BLOCK_HEIGHT + POX_SUNSET_END,
            1_000_000,
        )
    }

    /// Return true if PoX should sunset at all
    /// return false if not.
    pub fn has_pox_sunset(epoch_id: StacksEpochId) -> (sunsets: bool)
        ensures
            sunsets == sunset_exists(epoch_id),
    {
        epoch_id < StacksEpochId::Epoch21
    }

    /// Returns true if PoX has been fully disabled by the PoX sunset.
    /// Behavior is epoch-specific
    pub fn is_after_pox_sunset_end(&self, burn_block_height: u64, epoch_id: StacksEpochId) -> (ended:
        bool)
        ensures
            ended == self@.sunset_ended(burn_block_height as int, epoch_id),
    {
        if !Self::has_pox_sunset(epoch_id) {
            false
        } else {
            burn_block_height >= self.sunset_end
        }
    }

    /// Returns true if the burn height falls into the PoX sunset period.
    /// Returns false if not, or if the sunset isn't active in this epoch
    /// (Note that this is true if burn_block_height is beyond the sunset height)
    pub fn is_after_pox_sunset_start(&self, burn_block_height: u64, epoch_id: StacksEpochId) -> (started:
        bool)
        ensures
            started == self@.sunset_started(burn_block_height as int, epoch_id),
    {
        if !Self::has_pox_sunset(epoch_id) {
            false
        } else {
            self.sunset_start <= burn_block_height
        }
    }

    /// Whether the block at `burn_height` is the first one of a reward cycle.
    pub fn is_reward_cycle_start(&self, first_block_height: u64, burn_height: u64) -> (starts: bool)
        requires
            first_block_height <= burn_height,
            self@.reward_cycle_length > 0,
        ensures
            starts == starts_reward_cycle(
                first_block_height as int,
                self@.reward_cycle_length,
                burn_height as int,
            ),
    {
        let effective_height: u64 = burn_height - first_block_height;
        // first block of the new reward cycle
        (effective_height % (self.reward_cycle_length as u64)) == 1
    }

    /// The height of the first block of the given reward cycle.
    pub fn reward_cycle_to_block_height(&self, first_block_height: u64, reward_cycle: u64) -> (height:
        u64)
        requires
            reward_cycle_start(
                first_block_height as int,
                self@.reward_cycle_length,
                reward_cycle as int,
            ) <= u64::MAX,
        ensures
            height == reward_cycle_start(
                first_block_height as int,
                self@.reward_cycle_length,
                reward_cycle as int,
            ),
    {
        // NOTE: the `+ 1` is because the height of the first block of a reward cycle is mod 1, not
        // mod 0.
        assert(0 <= reward_cycle * self.reward_cycle_length) by (nonlinear_arith);
        first_block_height + reward_cycle * (self.reward_cycle_length as u64) + 1
    }

    /// The reward cycle that is active at the given height.
    pub fn block_height_to_reward_cycle(&self, first_block_height: u64, block_height: u64) -> (cycle:
        Option<u64>)
        requires
            first_block_height <= block_height ==> self@.reward_cycle_length > 0,
        ensures
            reward_cycle_at(
                first_block_height as int,
                self@.reward_cycle_length,
                block_height as int,
            ) == as_int(cycle),
            cycle is Some <==> first_block_height <= block_height,
            cycle matches Some(c) ==> c * self.reward_cycle_length <= block_height
                - first_block_height < (c + 1) * self.reward_cycle_length,
    {
        Self::static_block_height_to_reward_cycle(
            block_height,
            first_block_height,
            self.reward_cycle_length as u64,
        )
    }

    /// Whether the block at the given height lies in the prepare phase of its reward cycle.
    pub fn is_in_prepare_phase(&self, first_block_height: u64, block_height: u64) -> (prepares:
        bool)
        requires
            first_block_height < block_height ==> self@.reward_cycle_length > 0 && (reward_index(
                first_block_height as int,
                self@.reward_cycle_length,
                block_height as int,
            ) == 0 || self@.prepare_length <= self@.reward_cycle_length),
        ensures
            prepares == in_prepare_phase(
                first_block_height as int,
                self@.reward_cycle_length,
                self@.prepare_length,
                block_height as int,
            ),
    {
        Self::static_is_in_prepare_phase(
            first_block_height,
            self.reward_cycle_length as u64,
            self.prepare_length as u64,
            block_height,
        )
    }

    /// Whether the block at the given height lies in the prepare phase of its reward cycle.
    pub fn static_is_in_prepare_phase(
        first_block_height: u64,
        reward_cycle_length: u64,
        prepare_length: u64,
        block_height: u64,
    ) -> (prepares: bool)
        requires
            first_block_height < block_height ==> reward_cycle_length > 0 && (reward_index(
                first_block_height as int,
                reward_cycle_length as int,
                block_height as int,
            ) == 0 || prepare_length <= reward_cycle_length),
        ensures
            prepares == in_prepare_phase(
                first_block_height as int,
                reward_cycle_length as int,
                prepare_length as int,
                block_height as int,
            ),
    {
        if block_height <= first_block_height {
            // not a reward cycle start if we're the first block after genesis.
            false
        } else {
            let effective_height: u64 = block_height - first_block_height;
            let reward_index: u64 = effective_height % reward_cycle_length;

            // NOTE: first block in reward cycle is mod 1, so mod 0 is the last block in the
            // prepare phase.
            reward_index == 0 || reward_index > (reward_cycle_length - prepare_length)
        }
    }

    /// Returns the active reward cycle at the given burn block height
    /// * `first_block_ht` - the first burn block height that the Stacks network monitored
    /// * `reward_cycle_len` - the length of each reward cycle in the network.
    pub fn static_block_height_to_reward_cycle(
        block_ht: u64,
        first_block_ht: u64,
        reward_cycle_len: u64,
    ) -> (cycle: Option<u64>)
        requires
            first_block_ht <= block_ht ==> reward_cycle_len > 0,
        ensures
            reward_cycle_at(first_block_ht as int, reward_cycle_len as int, block_ht as int)
                == as_int(cycle),
            cycle is Some <==> first_block_ht <= block_ht,
            cycle matches Some(c) ==> c * reward_cycle_len <= block_ht - first_block_ht < (c + 1)
                * reward_cycle_len,
    {
        if block_ht < first_block_ht {
            return None;
        }
        let ghost effective = block_ht - first_block_ht;
        let ghost length = reward_cycle_len as int;
        assert((effective / length) * length <= effective < (effective / length + 1) * length)
            by (nonlinear_arith)
            requires
                effective >= 0,
                length > 0,
        ;
        Some((block_ht - first_block_ht) / (reward_cycle_len))
    }
}

} // verus!
