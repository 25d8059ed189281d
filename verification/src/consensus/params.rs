//! Consensus parameters.
//!
//! Every node of a network must hold the same parameters, or the network
//! forks. Each network therefore has one fixed set of them, and the only value
//! derived from a set is the number of blocks between two difficulty
//! adjustments.

use vstd::prelude::*;
use crate::network::constants::Network;
use crate::util::uint::Uint256;

verus! {

/// Limbs of the lowest possible difficulty for Mainnet, least significant
/// limb first. See comment on `Params::pow_limit` for more info.
pub const MAX_BITS_BITCOIN: [u64; 4] = [
    0xffffffffffffffffu64,
    0xffffffffffffffffu64,
    0xffffffffffffffffu64,
    0x00000fffffffffffu64,
];

/// Limbs of the lowest possible difficulty for Testnet, least significant
/// limb first. See comment on `Params::pow_limit` for more info.
pub const MAX_BITS_TESTNET: [u64; 4] = [
    0xffffffffffffffffu64,
    0xffffffffffffffffu64,
    0xffffffffffffffffu64,
    0x00000fffffffffffu64,
];

/// Limbs of the lowest possible difficulty for Signet, least significant
/// limb first. See comment on `Params::pow_limit` for more info.
pub const MAX_BITS_SIGNET: [u64; 4] = [
    0xffffffffffffffffu64,
    0xffffffffffffffffu64,
    0xffffffffffffffffu64,
    0x000fffffffffffffu64,
];

/// Limbs of the lowest possible difficulty for Regtest, least significant
/// limb first. See comment on `Params::pow_limit` for more info.
pub const MAX_BITS_REGTEST: [u64; 4] = [
    0x0000000000000000u64,
    0x0000000000000000u64,
    0x0000000000000000u64,
    0x7fffff0000000000u64,
];

/// Why a parameter set could not be used.
#[derive(Copy, Clone, Debug, PartialEq, Eq, Structural, Hash)]
pub enum ParamsError {
    /// The set breaks an invariant of its fields: a value derived from it
    /// would be undefined.
    InvalidParameters,
}

/// Parameters that influence chain consensus.
#[derive(Debug, Clone, PartialEq, Eq)]
pub struct Params {
    /// Network for which parameters are valid.
    pub network: Network,
    /// Time when BIP16 becomes active; 0 means active from genesis.
    pub bip16_time: u32,
    /// Block height at which BIP34 becomes active.
    pub bip34_height: u32,
    /// Block height at which BIP65 becomes active.
    pub bip65_height: u32,
    /// Block height at which BIP66 becomes active.
    pub bip66_height: u32,
    /// Number of blocks of a confirmation window that must signal a rule
    /// change for it to activate.
    pub rule_change_activation_threshold: u32,
    /// Number of blocks with the same set of rules.
    pub miner_confirmation_window: u32,
    /// Proof of work limit value. It contains the lowest possible difficulty.
    ///
    /// Note that this value differs from Bitcoin Core's powLimit field in that this value is
    /// attainable, but Bitcoin Core's is not. Specifically, because targets in Bitcoin are always
    /// rounded to the nearest float expressible in "compact form", not all targets are attainable.
    /// Still, this should not affect consensus as the only place where the non-compact form of
    /// this is used in Bitcoin Core's consensus algorithm is in comparison and there are no
    /// compact-expressible values between Bitcoin Core's and the limit expressed here.
    pub pow_limit: Uint256,
    /// Expected amount of time to mine one block, in seconds.
    pub pow_target_spacing: u64,
    /// Length of a difficulty recalculation period, in seconds.
    pub pow_target_timespan: u64,
    /// Determines whether minimal difficulty may be used for blocks or not.
    pub allow_min_difficulty_blocks: bool,
    /// Determines whether retargeting is disabled for this network or not.
    pub no_pow_retargeting: bool,
    /// Block height at which Lyra2REv2 and DGWv3 becomes active.
    pub switch_lyra2rev2_dgwblock: u32,
}

impl Params {
    /// The proof-of-work limit of each network.
    pub open spec fn spec_pow_limit(network: Network) -> Uint256 {
        match network {
            Network::Bitcoin => Uint256(MAX_BITS_BITCOIN),
            Network::Testnet => Uint256(MAX_BITS_TESTNET),
            Network::Signet => Uint256(MAX_BITS_SIGNET),
            Network::Regtest => Uint256(MAX_BITS_REGTEST),
        }
    }

    /// The parameter set of each network, field by field.
    pub open spec fn spec_new(network: Network) -> Params {
        Params {
            network,
            bip16_time: match network {
                Network::Bitcoin => 0,
                _ => 1333238400,
            },
            bip34_height: match network {
                Network::Bitcoin | Network::Testnet => 0,
                Network::Signet | Network::Regtest => 1,
            },
            bip65_height: match network {
                Network::Bitcoin => 977759,
                Network::Testnet => 0,
                Network::Signet | Network::Regtest => 1,
            },
            bip66_height: match network {
                Network::Bitcoin => 977759,
                Network::Testnet => 0,
                Network::Signet | Network::Regtest => 1,
            },
            rule_change_activation_threshold: match network {
                Network::Bitcoin => 7560,
                Network::Testnet | Network::Signet => 75,
                Network::Regtest => 108,
            },
            miner_confirmation_window: match network {
                Network::Bitcoin => 10080,
                Network::Testnet | Network::Signet => 100,
                Network::Regtest => 144,
            },
            pow_limit: Self::spec_pow_limit(network),
            pow_target_spacing: 90,
            pow_target_timespan: 95040,
            allow_min_difficulty_blocks: network == Network::Testnet || network
                == Network::Regtest,
            no_pow_retargeting: network == Network::Regtest,
            switch_lyra2rev2_dgwblock: match network {
                Network::Bitcoin => 450000,
                Network::Testnet | Network::Regtest => 60,
                Network::Signet => 1,
            },
        }
    }

    /// The invariants of the fields: a window that can be met, and positive
    /// lengths of time.
    pub open spec fn is_valid(&self) -> bool {
        &&& 0 < self.rule_change_activation_threshold <= self.miner_confirmation_window
        &&& self.miner_confirmation_window > 0
        &&& self.pow_target_spacing > 0
        &&& self.pow_target_timespan > 0
    }

    /// The number of blocks between difficulty adjustments: the whole number
    /// of spacings in a timespan, or the error where the spacing is zero.
    pub open spec fn spec_difficulty_adjustment_interval(&self) -> Result<u64, ParamsError> {
        if self.pow_target_spacing == 0 {
            Err(ParamsError::InvalidParameters)
        } else {
            Ok((self.pow_target_timespan / self.pow_target_spacing) as u64)
        }
    }

    /// Creates parameters set for the given network.
    pub fn new(network: Network) -> (params: Params)
        ensures
            params == Self::spec_new(network),
            params.network == network,
            params.is_valid(),
    {
        match network {
            Network::Bitcoin => Params {
                network: Network::Bitcoin,
                bip16_time: 0,  // genesis block
                bip34_height: 0,
                bip65_height: 977759,
                bip66_height: 977759,
                rule_change_activation_threshold: 7560,  // 75% of 10080
                miner_confirmation_window: 10080,
                pow_limit: Uint256(MAX_BITS_BITCOIN),
                pow_target_spacing: 90,  // 1.5 minutes
                pow_target_timespan: 95040,  // 1.1 days
                allow_min_difficulty_blocks: false,
                no_pow_retargeting: false,
                switch_lyra2rev2_dgwblock: 450000,
            },
            Network::Testnet => Params {
                network: Network::Testnet,
                bip16_time: 1333238400,  // Apr 1 2012
                bip34_height: 0,
                bip65_height: 0,
                bip66_height: 0,
                rule_change_activation_threshold: 75,  // 75% of 100
                miner_confirmation_window: 100,
                pow_limit: Uint256(MAX_BITS_TESTNET),
                pow_target_spacing: 90,  // 1.5 minutes
                pow_target_timespan: 95040,  // 1.1 days
                allow_min_difficulty_blocks: true,
                no_pow_retargeting: false,
                switch_lyra2rev2_dgwblock: 60,
            },
            Network::Signet => Params {
                network: Network::Signet,
                bip16_time: 1333238400,  // Apr 1 2012
                bip34_height: 1,
                bip65_height: 1,
                bip66_height: 1,
                rule_change_activation_threshold: 75,  // 75% of 100
                miner_confirmation_window: 100,
                pow_limit: Uint256(MAX_BITS_SIGNET),
                pow_target_spacing: 90,  // 1.5 minutes
                pow_target_timespan: 95040,  // 1.1 days
                allow_min_difficulty_blocks: false,
                no_pow_retargeting: false,
                switch_lyra2rev2_dgwblock: 1,
            },
            Network::Regtest => Params {
                network: Network::Regtest,
                bip16_time: 1333238400,  // Apr 1 2012
                bip34_height: 1,
                bip65_height: 1,
                bip66_height: 1,
                rule_change_activation_threshold: 108,  // 75% of 144
                miner_confirmation_window: 144,
                pow_limit: Uint256(MAX_BITS_REGTEST),
                pow_target_spacing: 90,  // 1.5 minutes
                pow_target_timespan: 95040,  // 1.1 days
                allow_min_difficulty_blocks: true,
                no_pow_retargeting: true,
                switch_lyra2rev2_dgwblock: 60,
            },
        }
    }

    /// Calculates the number of blocks between difficulty adjustments.
    ///
    /// A set with a zero `pow_target_spacing` has no such number: the call
    /// then returns `ParamsError::InvalidParameters`.
    pub fn difficulty_adjustment_interval(&self) -> (result: Result<u64, ParamsError>)
        ensures
            result == self.spec_difficulty_adjustment_interval(),
            self.pow_target_spacing == 0 <==> result == Err::<u64, ParamsError>(
                ParamsError::InvalidParameters,
            ),
            result matches Ok(blocks) ==> blocks * self.pow_target_spacing
                <= self.pow_target_timespan < (blocks + 1) * self.pow_target_spacing,
    {
        if self.pow_target_spacing == 0 {
            return Err(ParamsError::InvalidParameters);
        }
        let blocks: u64 = self.pow_target_timespan / self.pow_target_spacing;
        proof {
            lemma_whole_spacings(self.pow_target_timespan as int, self.pow_target_spacing as int);
        }
        Ok(blocks)
    }
}

/// Building the set of a network keeps the network, and meets the invariants
/// of the fields; in particular the activation threshold never exceeds the
/// confirmation window.
pub proof fn lemma_built_params_are_valid(network: Network)
    ensures
        Params::spec_new(network).network == network,
        Params::spec_new(network).is_valid(),
        Params::spec_new(network).rule_change_activation_threshold <= Params::spec_new(
            network,
        ).miner_confirmation_window,
{
}

/// On every network a difficulty adjustment comes every 1056 blocks, and the
/// timespan holds that many spacings with no remainder.
pub proof fn lemma_built_interval_is_1056(network: Network)
    ensures
        Params::spec_new(network).spec_difficulty_adjustment_interval() == Ok::<u64, ParamsError>(
            1056,
        ),
        1056 * Params::spec_new(network).pow_target_spacing == Params::spec_new(
            network,
        ).pow_target_timespan,
{
}

/// The interval is a function of the spacing and the timespan alone: two sets
/// that agree on both, and so one set asked twice, have the same interval.
pub proof fn lemma_interval_is_deterministic(a: Params, b: Params)
    requires
        a.pow_target_spacing == b.pow_target_spacing,
        a.pow_target_timespan == b.pow_target_timespan,
    ensures
        a.spec_difficulty_adjustment_interval() == b.spec_difficulty_adjustment_interval(),
{
}

/// Retargeting is switched off on Regtest alone, and blocks of minimal
/// difficulty are allowed on Testnet and Regtest alone.
pub proof fn lemma_built_flags(network: Network)
    ensures
        Params::spec_new(network).no_pow_retargeting <==> network == Network::Regtest,
        Params::spec_new(network).allow_min_difficulty_blocks <==> (network == Network::Testnet
            || network == Network::Regtest),
{
}

/// The limits as numbers: 2^236 - 1 on Mainnet and Testnet, 2^244 - 1 on
/// Signet, and 0x7fffff * 2^232 on Regtest.
pub proof fn lemma_pow_limit_values(network: Network)
    ensures
        Params::spec_new(network).pow_limit@ == match network {
            Network::Bitcoin | Network::Testnet =>
                0x0000_0fff_ffff_ffff_ffff_ffff_ffff_ffff_ffff_ffff_ffff_ffff_ffff_ffff_ffff_ffffnat,
            Network::Signet =>
                0x000f_ffff_ffff_ffff_ffff_ffff_ffff_ffff_ffff_ffff_ffff_ffff_ffff_ffff_ffff_ffffnat,
            Network::Regtest =>
                0x7fff_ff00_0000_0000_0000_0000_0000_0000_0000_0000_0000_0000_0000_0000_0000_0000nat,
        },
{
}

/// Regtest has the loosest limit of all networks and Mainnet the tightest,
/// which is also Testnet's.
pub proof fn lemma_pow_limit_order(network: Network)
    ensures
        Params::spec_new(network).pow_limit@ <= Params::spec_new(Network::Regtest).pow_limit@,
        Params::spec_new(Network::Bitcoin).pow_limit@ <= Params::spec_new(network).pow_limit@,
        Params::spec_new(Network::Testnet).pow_limit == Params::spec_new(
            Network::Bitcoin,
        ).pow_limit,
{
    lemma_pow_limit_values(network);
    lemma_pow_limit_values(Network::Bitcoin);
    lemma_pow_limit_values(Network::Regtest);
    assert(MAX_BITS_TESTNET =~= MAX_BITS_BITCOIN);
}

/// The quotient `t / s` is the number of whole `s` in `t`.
proof fn lemma_whole_spacings(t: int, s: int)
    requires
        0 <= t,
        0 < s,
    ensures
        (t / s) * s <= t < (t / s + 1) * s,
{
    vstd::arithmetic::div_mod::lemma_fundamental_div_mod(t, s);
    vstd::arithmetic::div_mod::lemma_mod_bound(t, s);
    assert((t / s + 1) * s == (t / s) * s + s) by (nonlinear_arith);
    assert(s * (t / s) == (t / s) * s) by (nonlinear_arith);
}

} // verus!
