//! GICv3 Generic Interrupt Controller.
//!
//! This module models the ARM GICv3 interrupt controller:
//! - Distributor (GICD)
//! - Redistributor (GICR)
//! - CPU Interface (via system registers)
//! - SGI, PPI and SPI support
//! - Interrupt prioritization and routing

use std::collections::VecDeque;
use std::sync::atomic::AtomicBool;
use std::sync::Arc;
use crate::bits::{bit_of, lane_of, lemma_bit_test, lemma_lanes_equal, lemma_set_bit, lemma_set_lane, lemma_zero_bits, lemma_zero_lanes};
use vstd::prelude::*;

verus! {

// =============================================================================
// GIC Constants
// =============================================================================

/// Number of Software Generated Interrupts (SGI).
pub const NUM_SGI: usize = 16;

/// Number of Private Peripheral Interrupts (PPI).
pub const NUM_PPI: usize = 16;

/// Number of Shared Peripheral Interrupts (SPI).
pub const MAX_SPI: usize = 988;

/// Total number of interrupt IDs (0-1019).
pub const MAX_INTID: usize = 1020;

/// SGI range: 0-15.
pub const SGI_START: u32 = 0;

pub const SGI_END: u32 = 15;

/// PPI range: 16-31.
pub const PPI_START: u32 = 16;

pub const PPI_END: u32 = 31;

/// SPI range: 32-1019.
pub const SPI_START: u32 = 32;

pub const SPI_END: u32 = 1019;

/// Special interrupt ID: no interrupt pending.
pub const INTID_SPURIOUS: u32 = 1023;

// =============================================================================
// GIC Version
// =============================================================================

/// GIC version.
#[derive(Clone, Copy, Debug, PartialEq, Eq, Structural)]
pub enum GicVersion {
    /// GICv2.
    V2,
    /// GICv3.
    V3,
    /// GICv4.
    V4,
}

// =============================================================================
// Interrupt State
// =============================================================================

/// State of an interrupt.
#[derive(Clone, Copy, Debug, PartialEq, Eq, Structural)]
pub enum InterruptState {
    /// Inactive - not pending and not active.
    Inactive,
    /// Pending - waiting to be serviced.
    Pending,
    /// Active - being serviced.
    Active,
    /// Active and Pending - being serviced and pending again.
    ActivePending,
}

impl InterruptState {
    /// The pending bit of a state.
    pub open spec fn pending_bit(self) -> bool {
        self is Pending || self is ActivePending
    }

    /// The active bit of a state.
    pub open spec fn active_bit(self) -> bool {
        self is Active || self is ActivePending
    }

    /// The state with the given pending and active bits.
    pub open spec fn from_bits(pending: bool, active: bool) -> InterruptState {
        if pending && active {
            InterruptState::ActivePending
        } else if pending {
            InterruptState::Pending
        } else if active {
            InterruptState::Active
        } else {
            InterruptState::Inactive
        }
    }

    /// Check if interrupt is pending.
    pub fn is_pending(&self) -> (r: bool)
        ensures
            r == self.pending_bit(),
    {
        matches!(self, Self::Pending | Self::ActivePending)
    }

    /// Check if interrupt is active.
    pub fn is_active(&self) -> (r: bool)
        ensures
            r == self.active_bit(),
    {
        matches!(self, Self::Active | Self::ActivePending)
    }

    /// Set pending.
    pub fn set_pending(&mut self)
        ensures
            *final(self) == InterruptState::from_bits(true, old(self).active_bit()),
    {
        *self = match *self {
            Self::Inactive => Self::Pending,
            Self::Pending => Self::Pending,
            Self::Active => Self::ActivePending,
            Self::ActivePending => Self::ActivePending,
        };
    }

    /// Clear pending.
    pub fn clear_pending(&mut self)
        ensures
            *final(self) == InterruptState::from_bits(false, old(self).active_bit()),
    {
        *self = match *self {
            Self::Inactive => Self::Inactive,
            Self::Pending => Self::Inactive,
            Self::Active => Self::Active,
            Self::ActivePending => Self::Active,
        };
    }

    /// Set active.
    ///
    /// Activating a pending-only interrupt consumes its pending bit; an
    /// interrupt that is already active and pending stays so.
    pub fn set_active(&mut self)
        ensures
            *final(self) == InterruptState::from_bits(
                old(self).pending_bit() && old(self).active_bit(),
                true,
            ),
    {
        *self = match *self {
            Self::Inactive => Self::Active,
            Self::Pending => Self::Active,
            Self::Active => Self::Active,
            Self::ActivePending => Self::ActivePending,
        };
    }

    /// Clear active.
    pub fn clear_active(&mut self)
        ensures
            *final(self) == InterruptState::from_bits(old(self).pending_bit(), false),
    {
        *self = match *self {
            Self::Inactive => Self::Inactive,
            Self::Pending => Self::Pending,
            Self::Active => Self::Inactive,
            Self::ActivePending => Self::Pending,
        };
    }
}

/// A state is determined by its pending and active bits.
pub proof fn lemma_state_bits_determine(s: InterruptState)
    ensures
        InterruptState::from_bits(s.pending_bit(), s.active_bit()) == s,
        InterruptState::from_bits(true, false).pending_bit(),
{
}

/// Setting and clearing the pending bit touch only the pending bit, and
/// clearing undoes setting on an interrupt that was not pending.
pub proof fn lemma_pending_round_trip(s: InterruptState)
    requires
        !s.pending_bit(),
    ensures
        InterruptState::from_bits(false, InterruptState::from_bits(true, s.active_bit()).active_bit())
            == s,
{
}

/// Clearing the active bit undoes setting it on an interrupt that was
/// neither pending nor active.
pub proof fn lemma_active_round_trip(s: InterruptState)
    requires
        !s.pending_bit(),
        !s.active_bit(),
    ensures
        InterruptState::from_bits(
            InterruptState::from_bits(s.pending_bit() && s.active_bit(), true).pending_bit(),
            false,
        ) == s,
{
}

// =============================================================================
// Interrupt Configuration
// =============================================================================

/// Interrupt trigger type.
#[derive(Clone, Copy, Debug, PartialEq, Eq, Structural)]
pub enum TriggerType {
    /// Level-sensitive.
    Level,
    /// Edge-triggered.
    Edge,
}

/// Interrupt routing mode.
#[derive(Clone, Copy, Debug, PartialEq, Eq, Structural)]
pub enum RoutingMode {
    /// Route to specific affinity.
    Affinity(u64),
    /// Route to any available PE.
    Any,
}

/// Per-interrupt configuration.
#[derive(Clone, Copy, Debug)]
pub struct InterruptConfig {
    /// Interrupt state.
    pub state: InterruptState,
    /// Enabled.
    pub enabled: bool,
    /// Priority (0-255, lower = higher priority).
    pub priority: u8,
    /// Target CPU (for SPIs).
    pub targets: u8,
    /// Trigger type.
    pub trigger: TriggerType,
    /// Group (0 or 1).
    pub group: u8,
    /// Routing mode.
    pub routing: RoutingMode,
    /// Non-secure.
    pub non_secure: bool,
}

/// The reset configuration of an interrupt.
pub open spec fn default_interrupt_config() -> InterruptConfig {
    InterruptConfig {
        state: InterruptState::Inactive,
        enabled: false,
        priority: 0xA0,
        targets: 0x01,
        trigger: TriggerType::Level,
        group: 1,
        routing: RoutingMode::Affinity(0),
        non_secure: true,
    }
}

impl Default for InterruptConfig {
    fn default() -> (r: Self)
        ensures
            r == default_interrupt_config(),
    {
        Self {
            state: InterruptState::Inactive,
            enabled: false,
            priority: 0xA0,  // Default priority
            targets: 0x01,  // CPU 0
            trigger: TriggerType::Level,
            group: 1,
            routing: RoutingMode::Affinity(0),
            non_secure: true,
        }
    }
}

// =============================================================================
// GIC Configuration
// =============================================================================

/// GIC configuration.
#[derive(Clone, Copy, Debug)]
pub struct GicConfig {
    /// GIC version.
    pub version: GicVersion,
    /// Number of CPUs.
    pub num_cpus: u8,
    /// Number of SPIs.
    pub num_spis: u16,
    /// Base address of distributor.
    pub dist_base: u64,
    /// Base address of redistributor.
    pub redist_base: u64,
    /// Stride between redistributor regions.
    pub redist_stride: u64,
}

/// The default GIC configuration: one CPU, 256 SPIs.
pub open spec fn default_gic_config() -> GicConfig {
    GicConfig {
        version: GicVersion::V3,
        num_cpus: 1,
        num_spis: 256,
        dist_base: 0x0800_0000,
        redist_base: 0x080A_0000,
        redist_stride: 0x2_0000,
    }
}

impl Default for GicConfig {
    fn default() -> (r: Self)
        ensures
            r == default_gic_config(),
    {
        Self {
            version: GicVersion::V3,
            num_cpus: 1,
            num_spis: 256,
            dist_base: 0x0800_0000,
            redist_base: 0x080A_0000,
            redist_stride: 0x2_0000,
        }
    }
}


// =============================================================================
// CPU Interface (per-CPU state)
// =============================================================================

/// Per-CPU GIC state.
#[derive(Clone, Debug)]
pub struct CpuInterface {
    /// CPU ID.
    pub cpu_id: u8,
    /// Affinity (MPIDR-like).
    pub affinity: u64,
    /// Enable Group 0.
    pub enable_grp0: bool,
    /// Enable Group 1.
    pub enable_grp1: bool,
    /// Enable Group 1 (Non-secure).
    pub enable_grp1_ns: bool,
    /// Priority mask (interrupts >= this are masked).
    pub priority_mask: u8,
    /// Binary point for group 0.
    pub bpr0: u8,
    /// Binary point for group 1.
    pub bpr1: u8,
    /// End of Interrupt mode (false = ICC_EOIR writes deactivate).
    pub eoi_mode: bool,
    /// Currently running priority.
    pub running_priority: u8,
    /// Active priorities (stack of (INTID, priority)).
    pub active_priorities: Vec<(u32, u8)>,
    /// Highest pending priority.
    pub highest_pending_priority: u8,
    /// Highest pending interrupt ID.
    pub highest_pending_intid: u32,
    /// SGI/PPI state (per-CPU).
    pub private_interrupts: [InterruptConfig; 32],
    /// Pending LPIs.
    pub pending_lpis: VecDeque<u32>,
    /// ICC_SRE_EL1 (System Register Enable).
    pub sre_el1: u64,
    /// ICC_SRE_EL2.
    pub sre_el2: u64,
    /// ICC_SRE_EL3.
    pub sre_el3: u64,
    /// ICC_CTLR_EL1.
    pub ctlr_el1: u64,
    /// ICC_CTLR_EL3.
    pub ctlr_el3: u64,
    /// ICC_IGRPEN0_EL1.
    pub igrpen0: u64,
    /// ICC_IGRPEN1_EL1.
    pub igrpen1: u64,
    /// ICC_IGRPEN1_EL3.
    pub igrpen1_el3: u64,
    /// GICR_WAKER.ProcessorSleep (redistributor wake handshake).
    pub waker_processor_sleep: bool,
}

/// Reset configuration of private interrupt `i`: SGIs (0-15) are
/// edge-triggered, PPIs level-triggered.
pub open spec fn default_private_config(i: int) -> InterruptConfig {
    if i < NUM_SGI {
        InterruptConfig { trigger: TriggerType::Edge, ..default_interrupt_config() }
    } else {
        default_interrupt_config()
    }
}

/// Whether an interrupt with this routing is delivered to a PE of this
/// affinity.
pub open spec fn routed_to(routing: RoutingMode, affinity: u64) -> bool {
    match routing {
        RoutingMode::Any => true,
        RoutingMode::Affinity(aff) => aff == affinity,
    }
}

impl CpuInterface {
    /// The configuration behind interrupt ID `i`: private (SGI/PPI) below 32,
    /// otherwise the SPI `i - 32`.
    pub open spec fn config_of(&self, spis: Seq<InterruptConfig>, i: int) -> InterruptConfig {
        if i < 32 {
            self.private_interrupts@[i]
        } else {
            spis[i - 32]
        }
    }

    /// Whether interrupt `i` competes for signalling on this CPU: it exists,
    /// is enabled, pending, unmasked and (for SPIs) routed here.
    pub open spec fn eligible(&self, spis: Seq<InterruptConfig>, i: int) -> bool {
        let c = self.config_of(spis, i);
        &&& 0 <= i < 32 + spis.len()
        &&& c.enabled
        &&& c.state.pending_bit()
        &&& c.priority < self.priority_mask
        &&& (i >= 32 ==> routed_to(c.routing, self.affinity))
    }

    /// `(prio, intid)` is the selection among the first `n` interrupt IDs:
    /// the eligible one with the numerically lowest priority, the lowest ID
    /// among equals; `(0xFF, INTID_SPURIOUS)` when none is eligible.
    pub open spec fn selects(&self, spis: Seq<InterruptConfig>, n: int, prio: u8, intid: u32) -> bool {
        ||| (prio == 0xFF && intid == INTID_SPURIOUS && forall|j: int|
            0 <= j < n ==> !#[trigger] self.eligible(spis, j))
        ||| ({
            &&& (intid as int) < n
            &&& self.eligible(spis, intid as int)
            &&& self.config_of(spis, intid as int).priority == prio
            &&& forall|j: int|
                0 <= j < n && #[trigger] self.eligible(spis, j) ==> prio <= self.config_of(
                    spis,
                    j,
                ).priority
            &&& forall|j: int|
                0 <= j < intid && #[trigger] self.eligible(spis, j) ==> prio < self.config_of(
                    spis,
                    j,
                ).priority
        })
    }

    /// The highest-pending fields hold the selection over all interrupts.
    pub open spec fn pending_selected(&self, spis: Seq<InterruptConfig>) -> bool {
        self.selects(
            spis,
            32 + spis.len() as int,
            self.highest_pending_priority,
            self.highest_pending_intid,
        )
    }

    /// The register fields other than the interrupt bookkeeping agree.
    pub open spec fn same_registers(&self, o: CpuInterface) -> bool {
        &&& self.cpu_id == o.cpu_id
        &&& self.affinity == o.affinity
        &&& self.enable_grp0 == o.enable_grp0
        &&& self.enable_grp1 == o.enable_grp1
        &&& self.enable_grp1_ns == o.enable_grp1_ns
        &&& self.priority_mask == o.priority_mask
        &&& self.bpr0 == o.bpr0
        &&& self.bpr1 == o.bpr1
        &&& self.eoi_mode == o.eoi_mode
        &&& self.pending_lpis@ == o.pending_lpis@
        &&& self.sre_el1 == o.sre_el1
        &&& self.sre_el2 == o.sre_el2
        &&& self.sre_el3 == o.sre_el3
        &&& self.ctlr_el1 == o.ctlr_el1
        &&& self.ctlr_el3 == o.ctlr_el3
        &&& self.igrpen0 == o.igrpen0
        &&& self.igrpen1 == o.igrpen1
        &&& self.igrpen1_el3 == o.igrpen1_el3
        &&& self.waker_processor_sleep == o.waker_processor_sleep
    }

    /// `self` is `old` with the given private configurations, active stack
    /// and running priority, and the highest-pending fields recomputed from
    /// `spis`.
    pub open spec fn changed_from(
        &self,
        old: CpuInterface,
        private: Seq<InterruptConfig>,
        active: Seq<(u32, u8)>,
        running: u8,
        spis: Seq<InterruptConfig>,
    ) -> bool {
        &&& self.same_registers(old)
        &&& self.private_interrupts@ == private
        &&& self.active_priorities@ == active
        &&& self.running_priority == running
        &&& self.pending_selected(spis)
    }

    /// `self` is `old` with only the highest-pending fields recomputed from
    /// `spis`.
    pub open spec fn refreshed_from(&self, old: CpuInterface, spis: Seq<InterruptConfig>) -> bool {
        self.changed_from(
            old,
            old.private_interrupts@,
            old.active_priorities@,
            old.running_priority,
            spis,
        )
    }

    /// Whether the CPU interface signals an interrupt to the PE.
    pub open spec fn signals(&self) -> bool {
        &&& (self.enable_grp0 || self.enable_grp1 || self.enable_grp1_ns)
        &&& self.highest_pending_intid != INTID_SPURIOUS
        &&& self.highest_pending_priority < self.running_priority
    }

    /// The highest-pending interrupt ID names a configuration that exists.
    pub open spec fn pending_in_range(&self, num_spis: int) -> bool {
        self.highest_pending_intid == INTID_SPURIOUS || (self.highest_pending_intid as int) < 32
            + num_spis
    }

    /// Reset state of the CPU interface with the given ID.
    pub open spec fn reset_state(&self, cpu_id: u8) -> bool {
        &&& self.cpu_id == cpu_id
        &&& self.affinity == cpu_id as u64
        &&& !self.enable_grp0 && !self.enable_grp1 && !self.enable_grp1_ns
        &&& self.priority_mask == 0xFF
        &&& self.bpr0 == 0 && self.bpr1 == 0
        &&& !self.eoi_mode
        &&& self.running_priority == 0xFF
        &&& self.active_priorities@ == Seq::<(u32, u8)>::empty()
        &&& self.highest_pending_priority == 0xFF
        &&& self.highest_pending_intid == INTID_SPURIOUS
        &&& forall|i: int| 0 <= i < 32 ==> #[trigger] self.private_interrupts@[i] == default_private_config(i)
        &&& self.pending_lpis@ == Seq::<u32>::empty()
        &&& self.sre_el1 == 7 && self.sre_el2 == 7 && self.sre_el3 == 7
        &&& self.ctlr_el1 == 0 && self.ctlr_el3 == 0
        &&& self.igrpen0 == 0 && self.igrpen1 == 0 && self.igrpen1_el3 == 0
        &&& self.waker_processor_sleep
    }

    /// Create a new CPU interface.
    pub fn new(cpu_id: u8) -> (r: Self)
        ensures
            r.reset_state(cpu_id),
    {
        let mut private_interrupts: [InterruptConfig; 32] = [InterruptConfig::default(); 32];
        let mut i: usize = 0;
        // SGIs are edge-triggered
        while i < NUM_SGI
            invariant
                i <= NUM_SGI,
                forall|j: int|
                    0 <= j < 32 ==> #[trigger] private_interrupts@[j] == if j < i {
                        default_private_config(j)
                    } else {
                        default_interrupt_config()
                    },
            decreases NUM_SGI - i,
        {
            private_interrupts[i].trigger = TriggerType::Edge;
            i += 1;
        }
        Self {
            cpu_id,
            affinity: cpu_id as u64,
            enable_grp0: false,
            enable_grp1: false,
            enable_grp1_ns: false,
            priority_mask: 0xFF,
            bpr0: 0,
            bpr1: 0,
            eoi_mode: false,
            running_priority: 0xFF,
            active_priorities: Vec::new(),
            highest_pending_priority: 0xFF,
            highest_pending_intid: INTID_SPURIOUS,
            private_interrupts,
            pending_lpis: VecDeque::new(),
            sre_el1: 0x7,  // System registers enabled
            sre_el2: 0x7,
            sre_el3: 0x7,
            ctlr_el1: 0,
            ctlr_el3: 0,
            igrpen0: 0,
            igrpen1: 0,
            igrpen1_el3: 0,
            waker_processor_sleep: true,
        }
    }

    /// Update highest pending interrupt.
    pub fn update_pending(&mut self, spis: &[InterruptConfig])
        requires
            spis@.len() + 32 <= u32::MAX,
        ensures
            final(self).refreshed_from(*old(self), spis@),
    {
        let mut best_priority: u8 = 0xFF;
        let mut best_intid: u32 = INTID_SPURIOUS;

        // Check private interrupts (SGI/PPI)
        let mut i: usize = 0;
        while i < 32
            invariant
                i <= 32,
                spis@.len() + 32 <= u32::MAX,
                self.selects(spis@, i as int, best_priority, best_intid),
            decreases 32 - i,
        {
            let config = self.private_interrupts[i];
            proof {
                assert(self.config_of(spis@, i as int) == config);
            }
            if config.enabled && config.state.is_pending() && config.priority < best_priority {
                // Check if unmasked
                if config.priority < self.priority_mask {
                    best_priority = config.priority;
                    best_intid = i as u32;
                }
            }
            i += 1;
        }

        // Check SPIs
        let mut j: usize = 0;
        while j < spis.len()
            invariant
                j <= spis@.len(),
                spis@.len() + 32 <= u32::MAX,
                self.selects(spis@, 32 + j as int, best_priority, best_intid),
            decreases spis@.len() - j,
        {
            let config = spis[j];
            let intid = SPI_START + j as u32;
            proof {
                assert(self.config_of(spis@, intid as int) == config);
            }
            if config.enabled && config.state.is_pending() && config.priority < best_priority {
                // Check routing
                let routed = match config.routing {
                    RoutingMode::Any => true,
                    RoutingMode::Affinity(aff) => aff == self.affinity,
                };

                if routed && config.priority < self.priority_mask {
                    best_priority = config.priority;
                    best_intid = intid;
                }
            }
            j += 1;
        }

        self.highest_pending_priority = best_priority;
        self.highest_pending_intid = best_intid;
        proof {
            assert forall|k: int| #[trigger] self.eligible(spis@, k) == old(self).eligible(spis@, k)
                && self.config_of(spis@, k) == old(self).config_of(spis@, k) by {}
            assert(self.pending_selected(spis@));
        }
    }

    /// Check if there's a pending interrupt to signal.
    pub fn pending_interrupt(&self) -> (r: bool)
        ensures
            r == self.signals(),
    {
        // Check if any group is enabled
        let grp0_enabled = self.enable_grp0;
        let grp1_enabled = self.enable_grp1 || self.enable_grp1_ns;

        if !grp0_enabled && !grp1_enabled {
            return false;
        }

        self.highest_pending_intid != INTID_SPURIOUS && self.highest_pending_priority
            < self.running_priority
    }

    /// Acknowledge interrupt (read ICC_IAR).
    pub fn acknowledge(&mut self, spis: &mut [InterruptConfig]) -> (r: u32)
        requires
            old(spis)@.len() + 32 <= u32::MAX,
            old(self).pending_in_range(old(spis)@.len() as int),
        ensures
            r == old(self).highest_pending_intid,
            r == INTID_SPURIOUS ==> *final(self) == *old(self) && final(spis)@ == old(spis)@,
            r != INTID_SPURIOUS ==> {
                let c = old(self).config_of(old(spis)@, r as int);
                let c2 = InterruptConfig { state: acknowledged_state(c), ..c };
                &&& final(spis)@ == spis_with(old(spis)@, r as int, c2)
                &&& final(self).changed_from(
                    *old(self),
                    private_with(old(self).private_interrupts@, r as int, c2),
                    old(self).active_priorities@.push((r, c.priority)),
                    c.priority,
                    final(spis)@,
                )
            },
    {
        let intid = self.highest_pending_intid;

        if intid == INTID_SPURIOUS {
            return INTID_SPURIOUS;
        }

        // Get interrupt config
        let mut config = if intid < SPI_START {
            self.private_interrupts[intid as usize]
        } else {
            spis[(intid - SPI_START) as usize]
        };

        // Transition state
        // For level-triggered: Pending -> ActivePending (level still asserted)
        // For edge-triggered: Pending -> Active (edge consumed)
        if config.trigger == TriggerType::Level {
            // For level-triggered, keep pending state - become ActivePending
            config.state = match config.state {
                InterruptState::Pending => InterruptState::ActivePending,
                InterruptState::ActivePending => InterruptState::ActivePending,
                other => {
                    // Should not acknowledge non-pending interrupt, but handle gracefully
                    let mut s = other;
                    s.set_active();
                    s
                },
            };
        } else {
            // For edge-triggered, consume the pending - become Active
            config.state.set_active();
            config.state.clear_pending();
        }
        if intid < SPI_START {
            self.private_interrupts[intid as usize] = config;
        } else {
            spis[(intid - SPI_START) as usize] = config;
        }

        // Push to active stack
        self.active_priorities.push((intid, config.priority));
        self.running_priority = config.priority;

        // Update pending
        self.update_pending(spis);

        intid
    }

    /// End of Interrupt (write ICC_EOIR).
    pub fn end_of_interrupt(&mut self, intid: u32, spis: &mut [InterruptConfig])
        requires
            old(spis)@.len() + 32 <= u32::MAX,
            intid == INTID_SPURIOUS || (intid as int) < 32 + old(spis)@.len(),
        ensures
            intid == INTID_SPURIOUS ==> *final(self) == *old(self) && final(spis)@ == old(spis)@,
            intid != INTID_SPURIOUS ==> {
                let c = old(self).config_of(old(spis)@, intid as int);
                let c2 = if old(self).eoi_mode {
                    c
                } else {
                    InterruptConfig {
                        state: InterruptState::from_bits(c.state.pending_bit(), false),
                        ..c
                    }
                };
                let active = remove_first_active(old(self).active_priorities@, intid);
                &&& final(spis)@ == spis_with(old(spis)@, intid as int, c2)
                &&& final(self).changed_from(
                    *old(self),
                    private_with(old(self).private_interrupts@, intid as int, c2),
                    active,
                    running_after(active),
                    final(spis)@,
                )
            },
    {
        if intid == INTID_SPURIOUS {
            return;
        }

        // Find in active stack
        let mut k: usize = 0;
        while k < self.active_priorities.len()
            invariant_except_break
                k <= self.active_priorities@.len(),
                forall|m: int| 0 <= m < k ==> (#[trigger] self.active_priorities@[m]).0 != intid,
            ensures
                k <= self.active_priorities@.len(),
                forall|m: int| 0 <= m < k ==> (#[trigger] self.active_priorities@[m]).0 != intid,
                k < self.active_priorities@.len() ==> self.active_priorities@[k as int].0 == intid,
            decreases self.active_priorities@.len() - k,
        {
            if self.active_priorities[k].0 == intid {
                break;
            }
            k += 1;
        }
        proof {
            lemma_remove_first_active(self.active_priorities@, intid, k as int);
        }
        if k < self.active_priorities.len() {
            self.active_priorities.remove(k);
        }

        // Update running priority
        let n = self.active_priorities.len();
        self.running_priority = if n > 0 {
            self.active_priorities[n - 1].1
        } else {
            0xFF
        };

        let ghost active = self.active_priorities@;
        assert(active == remove_first_active(old(self).active_priorities@, intid));
        assert(self.running_priority == running_after(active));
        // Deactivate interrupt (if not in EOI mode 1)
        if !self.eoi_mode {
            if intid < SPI_START {
                self.private_interrupts[intid as usize].state.clear_active();
            } else {
                spis[(intid - SPI_START) as usize].state.clear_active();
            }
        }
        let ghost c = old(self).config_of(old(spis)@, intid as int);
        assert(spis@ == spis_with(old(spis)@, intid as int, if old(self).eoi_mode { c } else {
            InterruptConfig { state: InterruptState::from_bits(c.state.pending_bit(), false), ..c }
        }));
        assert(self.private_interrupts@ == private_with(old(self).private_interrupts@, intid as int, if old(self).eoi_mode { c } else {
            InterruptConfig { state: InterruptState::from_bits(c.state.pending_bit(), false), ..c }
        }));

        self.update_pending(spis);
    }

    /// Deactivate interrupt (write ICC_DIR).
    pub fn deactivate(&mut self, intid: u32, spis: &mut [InterruptConfig])
        requires
            old(spis)@.len() + 32 <= u32::MAX,
            intid == INTID_SPURIOUS || (intid as int) < 32 + old(spis)@.len(),
        ensures
            intid == INTID_SPURIOUS ==> *final(self) == *old(self) && final(spis)@ == old(spis)@,
            intid != INTID_SPURIOUS ==> {
                let c = old(self).config_of(old(spis)@, intid as int);
                let c2 = InterruptConfig {
                    state: InterruptState::from_bits(c.state.pending_bit(), false),
                    ..c
                };
                &&& final(spis)@ == spis_with(old(spis)@, intid as int, c2)
                &&& final(self).changed_from(
                    *old(self),
                    private_with(old(self).private_interrupts@, intid as int, c2),
                    old(self).active_priorities@,
                    old(self).running_priority,
                    final(spis)@,
                )
            },
    {
        if intid == INTID_SPURIOUS {
            return;
        }

        if intid < SPI_START {
            self.private_interrupts[intid as usize].state.clear_active();
        } else {
            spis[(intid - SPI_START) as usize].state.clear_active();
        }
        self.update_pending(spis);
    }

    /// Send SGI: mark the software-generated interrupt pending on this CPU.
    pub fn send_sgi(&mut self, intid: u32)
        ensures
            final(self).same_registers(*old(self)),
            final(self).active_priorities@ == old(self).active_priorities@,
            final(self).running_priority == old(self).running_priority,
            final(self).highest_pending_priority == old(self).highest_pending_priority,
            final(self).highest_pending_intid == old(self).highest_pending_intid,
            final(self).private_interrupts@ == if intid < NUM_SGI {
                old(self).private_interrupts@.update(
                    intid as int,
                    sgi_pended(old(self).private_interrupts@[intid as int]),
                )
            } else {
                old(self).private_interrupts@
            },
    {
        if intid < NUM_SGI as u32 {
            self.private_interrupts[intid as usize].state.set_pending();
        }
    }
}

/// The state an interrupt moves to when acknowledged: a level-sensitive one
/// stays pending while its line is asserted, an edge-triggered one consumes
/// its pending edge.
pub open spec fn acknowledged_state(c: InterruptConfig) -> InterruptState {
    if c.trigger == TriggerType::Level {
        InterruptState::from_bits(c.state.pending_bit(), true)
    } else {
        InterruptState::from_bits(false, true)
    }
}

/// A configuration with its pending bit set.
pub open spec fn sgi_pended(c: InterruptConfig) -> InterruptConfig {
    InterruptConfig { state: InterruptState::from_bits(true, c.state.active_bit()), ..c }
}

/// The SPI table after replacing the configuration of interrupt ID `i`
/// (unchanged for a private ID).
pub open spec fn spis_with(spis: Seq<InterruptConfig>, i: int, c: InterruptConfig) -> Seq<
    InterruptConfig,
> {
    if i < 32 {
        spis
    } else {
        spis.update(i - 32, c)
    }
}

/// The private table after replacing the configuration of interrupt ID `i`
/// (unchanged for an SPI).
pub open spec fn private_with(private: Seq<InterruptConfig>, i: int, c: InterruptConfig) -> Seq<
    InterruptConfig,
> {
    if i < 32 {
        private.update(i, c)
    } else {
        private
    }
}

/// Position of the first entry of the active stack for `intid`.
pub open spec fn is_first_active(s: Seq<(u32, u8)>, intid: u32, k: int) -> bool {
    &&& 0 <= k < s.len()
    &&& s[k].0 == intid
    &&& forall|m: int| 0 <= m < k ==> (#[trigger] s[m]).0 != intid
}

/// The active stack with its first entry for `intid` removed (unchanged
/// when there is none).
pub open spec fn remove_first_active(s: Seq<(u32, u8)>, intid: u32) -> Seq<(u32, u8)> {
    if exists|k: int| is_first_active(s, intid, k) {
        s.remove(choose|k: int| is_first_active(s, intid, k))
    } else {
        s
    }
}

/// The running priority given the active stack: that of the most recently
/// acknowledged interrupt still active, 0xFF (idle) when none.
pub open spec fn running_after(active: Seq<(u32, u8)>) -> u8 {
    if active.len() > 0 {
        active.last().1
    } else {
        0xFF
    }
}

proof fn lemma_remove_first_active(s: Seq<(u32, u8)>, intid: u32, k: int)
    requires
        0 <= k <= s.len(),
        forall|m: int| 0 <= m < k ==> (#[trigger] s[m]).0 != intid,
        k < s.len() ==> s[k].0 == intid,
    ensures
        remove_first_active(s, intid) == if k < s.len() {
            s.remove(k)
        } else {
            s
        },
{
    if k < s.len() {
        assert(is_first_active(s, intid, k));
        let j = choose|j: int| is_first_active(s, intid, j);
        assert(j == k) by {
            if j < k {
                assert(s[j].0 != intid);
            } else if k < j {
                assert(s[k].0 != intid);
            }
        }
    } else {
        assert forall|j: int| !is_first_active(s, intid, j) by {
            if 0 <= j < s.len() {
                assert(s[j].0 != intid);
            }
        }
    }
}

// =============================================================================
// GIC (Distributor + Redistributors + CPU Interfaces)
// =============================================================================

/// ARM GICv3 Generic Interrupt Controller.
pub struct Gic {
    /// Configuration.
    config: GicConfig,
    /// Distributor enabled.
    dist_enabled: bool,
    /// Security state.
    security_enabled: bool,
    /// Affinity Routing Enable (ARE), secure.
    are_s: bool,
    /// Affinity Routing Enable (ARE), non-secure.
    are_ns: bool,
    /// SPI configuration.
    spis: Vec<InterruptConfig>,
    /// Per-CPU interfaces.
    cpu_interfaces: Vec<CpuInterface>,
    /// Published per-CPU IRQ line levels: lets the CPU's hot path test for a
    /// pending interrupt without taking a lock on a shared GIC.
    irq_lines: Vec<Arc<AtomicBool>>,
}

/// A new handle on a published IRQ line.
///
/// Calls `<Arc<AtomicBool> as Clone>::clone`, which hands out a second
/// pointer to the same allocation: the result is the same line (Verus
/// equates an `Arc` with what it points to). The line's level is not
/// modelled.
#[verifier::external_body]
fn share_line(line: &Arc<AtomicBool>) -> (r: Arc<AtomicBool>)
    ensures
        r == *line,
{
    Arc::clone(line)
}

/// Whether an interrupt ID names an SPI that this table holds.
pub open spec fn spi_slot(intid: u32, num_spis: int) -> bool {
    SPI_START <= intid <= SPI_END && (intid - SPI_START) < num_spis
}

/// Whether an SGI sent with this target list and IRM bit reaches CPU `i`.
pub open spec fn sgi_targets(target_list: u16, irm: bool, i: int) -> bool {
    irm || (target_list >> (i as u16)) & 1 != 0
}

impl Gic {
    /// GIC configuration.
    pub closed spec fn gic_config(&self) -> GicConfig {
        self.config
    }

    /// SPI configurations, indexed by `intid - 32`.
    pub closed spec fn spi_table(&self) -> Seq<InterruptConfig> {
        self.spis@
    }

    /// Per-CPU interfaces, indexed by CPU number.
    pub closed spec fn cpu_table(&self) -> Seq<CpuInterface> {
        self.cpu_interfaces@
    }

    /// GICD_CTLR enable bits as last written.
    pub closed spec fn distributor_enabled(&self) -> bool {
        self.dist_enabled
    }

    /// Security (DS) state.
    pub closed spec fn security(&self) -> bool {
        self.security_enabled
    }

    /// Affinity routing enables (secure, non-secure).
    pub closed spec fn affinity_routing(&self) -> (bool, bool) {
        (self.are_s, self.are_ns)
    }

    /// Number of published IRQ lines.
    pub closed spec fn num_lines(&self) -> nat {
        self.irq_lines@.len()
    }

    /// The published IRQ line of CPU `i`.
    pub closed spec fn line_at(&self, i: int) -> Arc<AtomicBool> {
        self.irq_lines@[i]
    }

    /// The table sizes follow the configuration: one SPI entry per SPI, one
    /// CPU interface and one IRQ line per CPU.
    pub open spec fn shaped(&self) -> bool {
        &&& self.spi_table().len() == self.gic_config().num_spis
        &&& self.cpu_table().len() == self.gic_config().num_cpus
        &&& self.num_lines() == self.gic_config().num_cpus
    }

    /// Every CPU's highest-pending ID names an existing interrupt.
    pub open spec fn pending_ids_in_range(&self) -> bool {
        forall|i: int|
            0 <= i < self.cpu_table().len() ==> (#[trigger] self.cpu_table()[i]).pending_in_range(
                self.spi_table().len() as int,
            )
    }

    /// Well-formedness: the tables match the configuration, one IRQ line per
    /// CPU, and every CPU's highest-pending ID names an existing interrupt.
    pub closed spec fn wf(&self) -> bool {
        &&& self.spis@.len() == self.config.num_spis
        &&& self.cpu_interfaces@.len() == self.config.num_cpus
        &&& self.irq_lines@.len() == self.cpu_interfaces@.len()
        &&& forall|i: int|
            0 <= i < self.cpu_interfaces@.len() ==> (#[trigger] self.cpu_interfaces@[i]).pending_in_range(
                self.spis@.len() as int,
            )
    }

    /// Well-formedness is exactly: the sizes follow the configuration and
    /// every CPU's highest-pending ID names an existing interrupt.
    pub proof fn lemma_wf_iff(&self)
        ensures
            self.wf() <==> (self.shaped() && self.pending_ids_in_range()),
    {
    }

    /// Every CPU's highest-pending fields hold the selection over the
    /// current interrupt state.
    pub open spec fn synced(&self) -> bool {
        forall|i: int|
            0 <= i < self.cpu_table().len() ==> (#[trigger] self.cpu_table()[i]).pending_selected(
                self.spi_table(),
            )
    }

    /// Everything but the SPI table and the CPU interfaces agrees.
    pub open spec fn same_distributor(&self, o: &Gic) -> bool {
        &&& self.gic_config() == o.gic_config()
        &&& self.distributor_enabled() == o.distributor_enabled()
        &&& self.security() == o.security()
        &&& self.affinity_routing() == o.affinity_routing()
        &&& self.num_lines() == o.num_lines()
    }

    /// `self` is `o` with the given SPI table and every CPU interface's
    /// highest-pending fields recomputed from it.
    pub open spec fn spis_written(&self, o: &Gic, spis: Seq<InterruptConfig>) -> bool {
        &&& self.same_distributor(o)
        &&& self.spi_table() == spis
        &&& self.cpu_table().len() == o.cpu_table().len()
        &&& forall|i: int|
            0 <= i < self.cpu_table().len() ==> (#[trigger] self.cpu_table()[i]).refreshed_from(
                o.cpu_table()[i],
                spis,
            )
    }

    /// `self` is `o` after an SGI with this ID, target list and IRM bit:
    /// nothing for a non-SGI ID; otherwise the SGI is made pending on every
    /// targeted CPU and all CPUs re-select their highest pending interrupt.
    pub open spec fn sgi_sent(&self, o: &Gic, intid: u32, target_list: u16, irm: bool) -> bool {
        &&& intid >= NUM_SGI ==> *self == *o
        &&& intid < NUM_SGI ==> {
            &&& self.same_distributor(o)
            &&& self.spi_table() == o.spi_table()
            &&& self.synced()
            &&& self.cpu_table().len() == o.cpu_table().len()
            &&& forall|i: int|
                0 <= i < self.cpu_table().len() ==> {
                    let oc = #[trigger] o.cpu_table()[i];
                    self.cpu_table()[i].changed_from(
                        oc,
                        if sgi_targets(target_list, irm, i) {
                            oc.private_interrupts@.update(
                                intid as int,
                                sgi_pended(oc.private_interrupts@[intid as int]),
                            )
                        } else {
                            oc.private_interrupts@
                        },
                        oc.active_priorities@,
                        oc.running_priority,
                        o.spi_table(),
                    )
                }
        }
    }

    /// Create a new GIC.
    pub fn new(config: GicConfig) -> (r: Self)
        ensures
            r.wf(),
            r.shaped(),
            r.spi_table().len() == config.num_spis,
            r.cpu_table().len() == config.num_cpus,
            r.num_lines() == config.num_cpus,
            r.synced(),
            r.gic_config() == config,
            !r.distributor_enabled(),
            !r.security(),
            r.affinity_routing() == (true, true),
            forall|i: int|
                0 <= i < config.num_spis ==> #[trigger] r.spi_table()[i]
                    == default_interrupt_config(),
            forall|i: int|
                0 <= i < config.num_cpus ==> (#[trigger] r.cpu_table()[i]).reset_state(i as u8),
    {
        let num_spis = config.num_spis as usize;
        let num_cpus = config.num_cpus as usize;

        let mut spis: Vec<InterruptConfig> = Vec::with_capacity(num_spis);
        let mut k: usize = 0;
        while k < num_spis
            invariant
                k <= num_spis,
                spis@.len() == k,
                forall|i: int| 0 <= i < k ==> #[trigger] spis@[i] == default_interrupt_config(),
            decreases num_spis - k,
        {
            spis.push(InterruptConfig::default());
            k += 1;
        }

        let mut cpu_interfaces: Vec<CpuInterface> = Vec::with_capacity(num_cpus);
        let mut irq_lines: Vec<Arc<AtomicBool>> = Vec::with_capacity(num_cpus);
        let mut i: usize = 0;
        while i < num_cpus
            invariant
                i <= num_cpus,
                num_cpus <= 255,
                cpu_interfaces@.len() == i,
                irq_lines@.len() == i,
                forall|j: int| 0 <= j < i ==> (#[trigger] cpu_interfaces@[j]).reset_state(j as u8),
            decreases num_cpus - i,
        {
            cpu_interfaces.push(CpuInterface::new(i as u8));
            irq_lines.push(Arc::new(AtomicBool::new(false)));
            i += 1;
        }

        let r = Self {
            config,
            dist_enabled: false,
            security_enabled: false,
            are_s: true,
            are_ns: true,
            spis,
            cpu_interfaces,
            irq_lines,
        };
        proof {
            assert forall|j: int| 0 <= j < r.cpu_interfaces@.len() implies (
            #[trigger] r.cpu_interfaces@[j]).pending_selected(r.spis@) by {
                let c = r.cpu_interfaces@[j];
                assert forall|m: int| 0 <= m < 32 + r.spis@.len() implies !#[trigger] c.eligible(
                    r.spis@,
                    m,
                ) by {
                    if m < 32 {
                        assert(c.private_interrupts@[m] == default_private_config(m));
                    } else {
                        assert(r.spis@[m - 32] == default_interrupt_config());
                    }
                }
            }
        }
        r
    }

    /// Shared handle to a CPU's IRQ line level (updated on every GIC state
    /// change).
    pub fn irq_line(&self, cpu_id: usize) -> (r: Option<Arc<AtomicBool>>)
        ensures
            r is Some <==> cpu_id < self.num_lines(),
            r matches Some(l) ==> l == self.line_at(cpu_id as int),
    {
        if cpu_id < self.irq_lines.len() {
            Some(share_line(&self.irq_lines[cpu_id]))
        } else {
            None
        }
    }

    /// Get GIC configuration.
    pub fn config(&self) -> (r: &GicConfig)
        ensures
            *r == self.gic_config(),
    {
        &self.config
    }

    /// Reset the GIC.
    pub fn reset(&mut self)
        requires
            old(self).wf(),
        ensures
            final(self).wf(),
            final(self).synced(),
            final(self).gic_config() == old(self).gic_config(),
            final(self).num_lines() == old(self).num_lines(),
            final(self).shaped(),
            !final(self).distributor_enabled(),
            !final(self).security(),
            final(self).affinity_routing() == (true, true),
            final(self).spi_table().len() == old(self).spi_table().len(),
            forall|i: int|
                0 <= i < final(self).spi_table().len() ==> #[trigger] final(self).spi_table()[i]
                    == default_interrupt_config(),
            final(self).cpu_table().len() == old(self).cpu_table().len(),
            forall|i: int|
                0 <= i < final(self).cpu_table().len() ==> (
                #[trigger] final(self).cpu_table()[i]).reset_state(i as u8),
    {
        self.dist_enabled = false;
        self.security_enabled = false;
        self.are_s = true;
        self.are_ns = true;

        let mut k: usize = 0;
        while k < self.spis.len()
            invariant
                k <= self.spis@.len(),
                self.spis@.len() == old(self).spis@.len(),
                self.spis@.len() == self.config.num_spis,
                self.config == old(self).config,
                self.irq_lines@ == old(self).irq_lines@,
                !self.dist_enabled && !self.security_enabled && self.are_s && self.are_ns,
                self.cpu_interfaces@ == old(self).cpu_interfaces@,
                forall|i: int| 0 <= i < k ==> #[trigger] self.spis@[i] == default_interrupt_config(),
            decreases self.spis@.len() - k,
        {
            self.spis[k] = InterruptConfig::default();
            k += 1;
        }

        let mut i: usize = 0;
        while i < self.cpu_interfaces.len()
            invariant
                i <= self.cpu_interfaces@.len(),
                self.cpu_interfaces@.len() == old(self).cpu_interfaces@.len(),
                self.spis@.len() == self.config.num_spis,
                self.config == old(self).config,
                self.irq_lines@ == old(self).irq_lines@,
                !self.dist_enabled && !self.security_enabled && self.are_s && self.are_ns,
                forall|i: int| 0 <= i < self.spis@.len() ==> #[trigger] self.spis@[i] == default_interrupt_config(),
                forall|j: int|
                    0 <= j < i ==> (#[trigger] self.cpu_interfaces@[j]).reset_state(j as u8),
            decreases self.cpu_interfaces@.len() - i,
        {
            self.cpu_interfaces[i] = CpuInterface::new(i as u8);
            i += 1;
        }
        let ghost before = *self;
        self.update_all_cpus();
        proof {
            assert forall|j: int| 0 <= j < self.cpu_interfaces@.len() implies (
            #[trigger] self.cpu_interfaces@[j]).reset_state(j as u8) by {
                let c = before.cpu_interfaces@[j];
                assert(c.reset_state(j as u8));
                assert forall|m: int| 0 <= m < 32 + self.spis@.len() implies !#[trigger] c.eligible(
                    self.spis@,
                    m,
                ) by {
                    if m < 32 {
                        assert(c.private_interrupts@[m] == default_private_config(m));
                    } else {
                        assert(self.spis@[m - 32] == default_interrupt_config());
                    }
                }
                lemma_selection_unique(c, self.spis@, 32 + self.spis@.len() as int,
                    self.cpu_interfaces@[j].highest_pending_priority,
                    self.cpu_interfaces@[j].highest_pending_intid, 0xFF, INTID_SPURIOUS);
            }
            lemma_synced_wf(*self);
        }
    }

    /// Get CPU interface.
    pub fn cpu(&self, cpu_id: usize) -> (r: Option<&CpuInterface>)
        ensures
            r == if cpu_id < self.cpu_table().len() {
                Some(&self.cpu_table()[cpu_id as int])
            } else {
                None::<&CpuInterface>
            },
    {
        if cpu_id < self.cpu_interfaces.len() {
            Some(&self.cpu_interfaces[cpu_id])
        } else {
            None
        }
    }

    /// Get mutable CPU interface.
    pub fn cpu_mut(&mut self, cpu_id: usize) -> (r: Option<&mut CpuInterface>)
        ensures
            r is Some <==> cpu_id < old(self).cpu_table().len(),
            r matches Some(c) ==> {
                &&& *c == old(self).cpu_table()[cpu_id as int]
                &&& final(self).cpu_table() == old(self).cpu_table().update(cpu_id as int, *final(c))
                &&& final(self).spi_table() == old(self).spi_table()
                &&& final(self).same_distributor(old(self))
                &&& old(self).wf() ==> c.pending_in_range(old(self).spi_table().len() as int)
                &&& old(self).wf() && final(c).pending_in_range(old(self).spi_table().len() as int)
                    ==> final(self).wf()
            },
            r is None ==> *final(self) == *old(self),
    {
        if cpu_id < self.cpu_interfaces.len() {
            Some(&mut self.cpu_interfaces[cpu_id])
        } else {
            None
        }
    }

    /// Set interrupt pending.
    pub fn set_pending(&mut self, intid: u32)
        requires
            old(self).wf(),
        ensures
            final(self).wf(),
            spi_slot(intid, old(self).spi_table().len() as int) ==> {
                let c = old(self).spi_table()[intid - SPI_START];
                &&& final(self).spis_written(
                    old(self),
                    old(self).spi_table().update(intid - SPI_START, sgi_pended(c)),
                )
                &&& final(self).synced()
            },
            !spi_slot(intid, old(self).spi_table().len() as int) ==> *final(self) == *old(self),
    {
        if intid >= SPI_START && intid <= SPI_END {
            let idx = (intid - SPI_START) as usize;
            if idx < self.spis.len() {
                self.spis[idx].state.set_pending();
                self.update_all_cpus();
                proof {
                    lemma_synced_wf(*self);
                }
            }
        }
    }

    /// Clear interrupt pending.
    pub fn clear_pending(&mut self, intid: u32)
        requires
            old(self).wf(),
        ensures
            final(self).wf(),
            spi_slot(intid, old(self).spi_table().len() as int) ==> {
                let c = old(self).spi_table()[intid - SPI_START];
                &&& final(self).spis_written(
                    old(self),
                    old(self).spi_table().update(
                        intid - SPI_START,
                        InterruptConfig {
                            state: InterruptState::from_bits(false, c.state.active_bit()),
                            ..c
                        },
                    ),
                )
                &&& final(self).synced()
            },
            !spi_slot(intid, old(self).spi_table().len() as int) ==> *final(self) == *old(self),
    {
        if intid >= SPI_START && intid <= SPI_END {
            let idx = (intid - SPI_START) as usize;
            if idx < self.spis.len() {
                self.spis[idx].state.clear_pending();
                self.update_all_cpus();
                proof {
                    lemma_synced_wf(*self);
                }
            }
        }
    }

    /// Set interrupt enabled.
    pub fn set_enabled(&mut self, intid: u32, enabled: bool)
        requires
            old(self).wf(),
        ensures
            final(self).wf(),
            spi_slot(intid, old(self).spi_table().len() as int) ==> {
                let c = old(self).spi_table()[intid - SPI_START];
                &&& final(self).spis_written(
                    old(self),
                    old(self).spi_table().update(
                        intid - SPI_START,
                        InterruptConfig { enabled, ..c },
                    ),
                )
                &&& final(self).synced()
            },
            !spi_slot(intid, old(self).spi_table().len() as int) ==> *final(self) == *old(self),
    {
        if intid >= SPI_START && intid <= SPI_END {
            let idx = (intid - SPI_START) as usize;
            if idx < self.spis.len() {
                self.spis[idx].enabled = enabled;
                self.update_all_cpus();
                proof {
                    lemma_synced_wf(*self);
                }
            }
        }
    }

    /// Set interrupt priority.
    pub fn set_priority(&mut self, intid: u32, priority: u8)
        requires
            old(self).wf(),
        ensures
            final(self).wf(),
            spi_slot(intid, old(self).spi_table().len() as int) ==> {
                let c = old(self).spi_table()[intid - SPI_START];
                &&& final(self).spis_written(
                    old(self),
                    old(self).spi_table().update(
                        intid - SPI_START,
                        InterruptConfig { priority, ..c },
                    ),
                )
                &&& final(self).synced()
            },
            !spi_slot(intid, old(self).spi_table().len() as int) ==> *final(self) == *old(self),
    {
        if intid >= SPI_START && intid <= SPI_END {
            let idx = (intid - SPI_START) as usize;
            if idx < self.spis.len() {
                self.spis[idx].priority = priority;
                self.update_all_cpus();
                proof {
                    lemma_synced_wf(*self);
                }
            }
        }
    }

    /// Set interrupt target CPUs.
    pub fn set_targets(&mut self, intid: u32, targets: u8)
        requires
            old(self).wf(),
        ensures
            final(self).wf(),
            spi_slot(intid, old(self).spi_table().len() as int) ==> {
                let c = old(self).spi_table()[intid - SPI_START];
                &&& final(self).spis_written(
                    old(self),
                    old(self).spi_table().update(
                        intid - SPI_START,
                        InterruptConfig { targets, ..c },
                    ),
                )
                &&& final(self).synced()
            },
            !spi_slot(intid, old(self).spi_table().len() as int) ==> *final(self) == *old(self),
    {
        if intid >= SPI_START && intid <= SPI_END {
            let idx = (intid - SPI_START) as usize;
            if idx < self.spis.len() {
                self.spis[idx].targets = targets;
                self.update_all_cpus();
                proof {
                    lemma_synced_wf(*self);
                }
            }
        }
    }

    /// Set interrupt routing (GICv3).
    pub fn set_routing(&mut self, intid: u32, routing: RoutingMode)
        requires
            old(self).wf(),
        ensures
            final(self).wf(),
            spi_slot(intid, old(self).spi_table().len() as int) ==> {
                let c = old(self).spi_table()[intid - SPI_START];
                &&& final(self).spis_written(
                    old(self),
                    old(self).spi_table().update(
                        intid - SPI_START,
                        InterruptConfig { routing, ..c },
                    ),
                )
                &&& final(self).synced()
            },
            !spi_slot(intid, old(self).spi_table().len() as int) ==> *final(self) == *old(self),
    {
        if intid >= SPI_START && intid <= SPI_END {
            let idx = (intid - SPI_START) as usize;
            if idx < self.spis.len() {
                self.spis[idx].routing = routing;
                self.update_all_cpus();
                proof {
                    lemma_synced_wf(*self);
                }
            }
        }
    }

    /// Send SGI to specified CPUs: all of them when `irm` is set, otherwise
    /// CPU `i` when bit `i` of `target_list` is set.
    pub fn send_sgi(&mut self, intid: u32, target_list: u16, irm: bool)
        requires
            old(self).wf(),
            irm || old(self).cpu_table().len() <= 16,
        ensures
            final(self).wf(),
            final(self).sgi_sent(old(self), intid, target_list, irm),
    {
        if intid >= NUM_SGI as u32 {
            return;
        }
        let ghost start = *self;
        let mut i: usize = 0;
        while i < self.cpu_interfaces.len()
            invariant
                i <= self.cpu_interfaces@.len(),
                self.cpu_interfaces@.len() == start.cpu_interfaces@.len(),
                irm || start.cpu_interfaces@.len() <= 16,
                intid < NUM_SGI,
                self.spis@ == start.spis@,
                self.config == start.config,
                self.dist_enabled == start.dist_enabled,
                self.security_enabled == start.security_enabled,
                self.are_s == start.are_s,
                self.are_ns == start.are_ns,
                self.irq_lines@ == start.irq_lines@,
                forall|j: int|
                    0 <= j < self.cpu_interfaces@.len() ==> {
                        let o = #[trigger] start.cpu_interfaces@[j];
                        let c = self.cpu_interfaces@[j];
                        &&& c.same_registers(o)
                        &&& c.active_priorities@ == o.active_priorities@
                        &&& c.running_priority == o.running_priority
                        &&& c.highest_pending_intid == o.highest_pending_intid
                        &&& c.private_interrupts@ == if j < i && sgi_targets(
                            target_list,
                            irm,
                            j,
                        ) {
                            o.private_interrupts@.update(
                                intid as int,
                                sgi_pended(o.private_interrupts@[intid as int]),
                            )
                        } else {
                            o.private_interrupts@
                        }
                    },
            decreases self.cpu_interfaces@.len() - i,
        {
            if irm || (target_list >> i) & 1 != 0 {
                self.cpu_interfaces[i].send_sgi(intid);
            }
            i += 1;
        }
        self.update_all_cpus();
        proof {
            lemma_synced_wf(*self);
        }
    }

    /// Check if CPU has pending interrupt.
    pub fn pending_interrupt(&self, cpu_id: usize) -> (r: bool)
        ensures
            r == (cpu_id < self.cpu_table().len() && self.cpu_table()[cpu_id as int].signals()),
    {
        if cpu_id < self.cpu_interfaces.len() {
            self.cpu_interfaces[cpu_id].pending_interrupt()
        } else {
            false
        }
    }

    /// Acknowledge interrupt for CPU: returns the interrupt ID taken, or
    /// `INTID_SPURIOUS` when none is pending or the CPU does not exist.
    pub fn acknowledge(&mut self, cpu_id: usize) -> (r: u32)
        requires
            old(self).wf(),
        ensures
            final(self).wf(),
            cpu_id >= old(self).cpu_table().len() ==> r == INTID_SPURIOUS && *final(self)
                == *old(self),
            cpu_id < old(self).cpu_table().len() ==> {
                let o = old(self).cpu_table()[cpu_id as int];
                &&& r == o.highest_pending_intid
                &&& final(self).synced()
                &&& r == INTID_SPURIOUS ==> final(self).spis_written(
                    old(self),
                    old(self).spi_table(),
                )
                &&& r != INTID_SPURIOUS ==> {
                    let c = o.config_of(old(self).spi_table(), r as int);
                    let c2 = InterruptConfig { state: acknowledged_state(c), ..c };
                    let spis2 = spis_with(old(self).spi_table(), r as int, c2);
                    &&& final(self).same_distributor(old(self))
                    &&& final(self).spi_table() == spis2
                    &&& final(self).cpu_table().len() == old(self).cpu_table().len()
                    &&& final(self).cpu_table()[cpu_id as int].changed_from(
                        o,
                        private_with(o.private_interrupts@, r as int, c2),
                        o.active_priorities@.push((r, c.priority)),
                        c.priority,
                        spis2,
                    )
                    &&& forall|i: int|
                        0 <= i < final(self).cpu_table().len() && i != cpu_id ==> (
                        #[trigger] final(self).cpu_table()[i]).refreshed_from(
                            old(self).cpu_table()[i],
                            spis2,
                        )
                }
            },
    {
        if cpu_id < self.cpu_interfaces.len() {
            proof {
                assert(self.cpu_interfaces@[cpu_id as int].pending_in_range(
                    self.spis@.len() as int,
                ));
            }
            let intid = self.cpu_interfaces[cpu_id].acknowledge(&mut self.spis);
            self.update_all_cpus();
            proof {
                lemma_synced_wf(*self);
            }
            intid
        } else {
            INTID_SPURIOUS
        }
    }

    /// End of interrupt for CPU.
    pub fn end_of_interrupt(&mut self, cpu_id: usize, intid: u32)
        requires
            old(self).wf(),
            intid == INTID_SPURIOUS || (intid as int) < 32 + old(self).spi_table().len(),
        ensures
            final(self).wf(),
            cpu_id >= old(self).cpu_table().len() ==> *final(self) == *old(self),
            cpu_id < old(self).cpu_table().len() ==> {
                let o = old(self).cpu_table()[cpu_id as int];
                &&& final(self).synced()
                &&& intid == INTID_SPURIOUS ==> final(self).spis_written(
                    old(self),
                    old(self).spi_table(),
                )
                &&& intid != INTID_SPURIOUS ==> {
                    let c = o.config_of(old(self).spi_table(), intid as int);
                    let c2 = if o.eoi_mode {
                        c
                    } else {
                        InterruptConfig {
                            state: InterruptState::from_bits(c.state.pending_bit(), false),
                            ..c
                        }
                    };
                    let spis2 = spis_with(old(self).spi_table(), intid as int, c2);
                    let active = remove_first_active(o.active_priorities@, intid);
                    &&& final(self).same_distributor(old(self))
                    &&& final(self).spi_table() == spis2
                    &&& final(self).cpu_table().len() == old(self).cpu_table().len()
                    &&& final(self).cpu_table()[cpu_id as int].changed_from(
                        o,
                        private_with(o.private_interrupts@, intid as int, c2),
                        active,
                        running_after(active),
                        spis2,
                    )
                    &&& forall|i: int|
                        0 <= i < final(self).cpu_table().len() && i != cpu_id ==> (
                        #[trigger] final(self).cpu_table()[i]).refreshed_from(
                            old(self).cpu_table()[i],
                            spis2,
                        )
                }
            },
    {
        if cpu_id < self.cpu_interfaces.len() {
            self.cpu_interfaces[cpu_id].end_of_interrupt(intid, &mut self.spis);
            self.update_all_cpus();
            proof {
                lemma_synced_wf(*self);
            }
        }
    }

    /// Drive the level of a private (PPI) interrupt line for a CPU.
    pub fn set_ppi_level(&mut self, cpu_id: usize, intid: u32, level: bool)
        requires
            old(self).wf(),
        ensures
            final(self).wf(),
            final(self).shaped(),
            final(self).gic_config() == old(self).gic_config(),
            !(cpu_id < old(self).cpu_table().len() && NUM_SGI <= intid < NUM_SGI + NUM_PPI)
                ==> *final(self) == *old(self),
            cpu_id < old(self).cpu_table().len() && NUM_SGI <= intid < NUM_SGI + NUM_PPI ==> {
                let o = old(self).cpu_table()[cpu_id as int];
                let c = o.private_interrupts@[intid as int];
                let c2 = InterruptConfig {
                    state: InterruptState::from_bits(level, c.state.active_bit()),
                    ..c
                };
                &&& final(self).same_distributor(old(self))
                &&& final(self).spi_table() == old(self).spi_table()
                &&& final(self).synced()
                &&& final(self).cpu_table().len() == old(self).cpu_table().len()
                &&& final(self).cpu_table()[cpu_id as int].changed_from(
                    o,
                    o.private_interrupts@.update(intid as int, c2),
                    o.active_priorities@,
                    o.running_priority,
                    old(self).spi_table(),
                )
                &&& forall|i: int|
                    0 <= i < final(self).cpu_table().len() && i != cpu_id ==> (
                    #[trigger] final(self).cpu_table()[i]).refreshed_from(
                        old(self).cpu_table()[i],
                        old(self).spi_table(),
                    )
            },
    {
        if cpu_id >= self.cpu_interfaces.len() {
            return;
        }
        let idx = intid as usize;
        if !(NUM_SGI <= idx && idx < NUM_SGI + NUM_PPI) {
            return;
        }
        if level {
            self.cpu_interfaces[cpu_id].private_interrupts[idx].state.set_pending();
        } else {
            self.cpu_interfaces[cpu_id].private_interrupts[idx].state.clear_pending();
        }
        self.update_all_cpus();
        proof {
            lemma_synced_wf(*self);
        }
    }

    /// ICC_PMR_EL1 write.
    pub fn set_priority_mask(&mut self, cpu_id: usize, mask: u8)
        requires
            old(self).wf(),
        ensures
            final(self).wf(),
            final(self).synced(),
            final(self).same_distributor(old(self)),
            final(self).spi_table() == old(self).spi_table(),
            final(self).cpu_table().len() == old(self).cpu_table().len(),
            forall|i: int|
                0 <= i < final(self).cpu_table().len() ==> (
                #[trigger] final(self).cpu_table()[i]).refreshed_from(
                    if i == cpu_id {
                        CpuInterface { priority_mask: mask, ..old(self).cpu_table()[i] }
                    } else {
                        old(self).cpu_table()[i]
                    },
                    old(self).spi_table(),
                ),
    {
        if cpu_id < self.cpu_interfaces.len() {
            self.cpu_interfaces[cpu_id].priority_mask = mask;
        }
        self.update_all_cpus();
        proof {
            lemma_synced_wf(*self);
        }
    }

    /// ICC_IGRPEN0/1_EL1 write.
    pub fn set_group_enable(&mut self, cpu_id: usize, group1: bool, enabled: bool)
        requires
            old(self).wf(),
        ensures
            final(self).wf(),
            final(self).synced(),
            final(self).same_distributor(old(self)),
            final(self).spi_table() == old(self).spi_table(),
            final(self).cpu_table().len() == old(self).cpu_table().len(),
            forall|i: int|
                0 <= i < final(self).cpu_table().len() ==> (
                #[trigger] final(self).cpu_table()[i]).refreshed_from(
                    if i == cpu_id && group1 {
                        CpuInterface {
                            enable_grp1: enabled,
                            igrpen1: if enabled {
                                1
                            } else {
                                0
                            },
                            ..old(self).cpu_table()[i]
                        }
                    } else if i == cpu_id {
                        CpuInterface {
                            enable_grp0: enabled,
                            igrpen0: if enabled {
                                1
                            } else {
                                0
                            },
                            ..old(self).cpu_table()[i]
                        }
                    } else {
                        old(self).cpu_table()[i]
                    },
                    old(self).spi_table(),
                ),
    {
        if cpu_id < self.cpu_interfaces.len() {
            if group1 {
                self.cpu_interfaces[cpu_id].enable_grp1 = enabled;
                self.cpu_interfaces[cpu_id].igrpen1 = enabled as u64;
            } else {
                self.cpu_interfaces[cpu_id].enable_grp0 = enabled;
                self.cpu_interfaces[cpu_id].igrpen0 = enabled as u64;
            }
        }
        self.update_all_cpus();
        proof {
            lemma_synced_wf(*self);
        }
    }

    /// ICC_DIR_EL1 write (deactivate, for EOImode=1).
    pub fn deactivate(&mut self, cpu_id: usize, intid: u32)
        requires
            old(self).wf(),
            intid == INTID_SPURIOUS || (intid as int) < 32 + old(self).spi_table().len(),
        ensures
            final(self).wf(),
            final(self).synced(),
            final(self).same_distributor(old(self)),
            final(self).cpu_table().len() == old(self).cpu_table().len(),
            cpu_id >= old(self).cpu_table().len() || intid == INTID_SPURIOUS
                ==> final(self).spis_written(old(self), old(self).spi_table()),
            cpu_id < old(self).cpu_table().len() && intid != INTID_SPURIOUS ==> {
                let o = old(self).cpu_table()[cpu_id as int];
                let c = o.config_of(old(self).spi_table(), intid as int);
                let c2 = InterruptConfig {
                    state: InterruptState::from_bits(c.state.pending_bit(), false),
                    ..c
                };
                let spis2 = spis_with(old(self).spi_table(), intid as int, c2);
                &&& final(self).spi_table() == spis2
                &&& final(self).cpu_table()[cpu_id as int].changed_from(
                    o,
                    private_with(o.private_interrupts@, intid as int, c2),
                    o.active_priorities@,
                    o.running_priority,
                    spis2,
                )
                &&& forall|i: int|
                    0 <= i < final(self).cpu_table().len() && i != cpu_id ==> (
                    #[trigger] final(self).cpu_table()[i]).refreshed_from(
                        old(self).cpu_table()[i],
                        spis2,
                    )
            },
    {
        if cpu_id < self.cpu_interfaces.len() {
            self.cpu_interfaces[cpu_id].deactivate(intid, &mut self.spis);
        }
        self.update_all_cpus();
        proof {
            lemma_synced_wf(*self);
        }
    }

    /// ICC_SGI1R_EL1 write: raise an SGI. The INTID is bits [27:24], the
    /// IRM bit is bit 40 and the target list bits [15:0], interpreted over
    /// the local cluster (IRM targets all).
    pub fn raise_sgi(&mut self, value: u64)
        requires
            old(self).wf(),
            (value >> 40) & 1 != 0 || old(self).cpu_table().len() <= 16,
        ensures
            final(self).wf(),
            final(self).sgi_sent(
                old(self),
                ((value >> 24) & 0xF) as u32,
                (value & 0xFFFF) as u16,
                (value >> 40) & 1 != 0,
            ),
    {
        let intid = ((value >> 24) & 0xF) as u32;
        let irm = (value >> 40) & 1 != 0;
        let target_list = (value & 0xFFFF) as u16;
        self.send_sgi(intid, target_list, irm);
    }

    /// Update pending state for all CPUs and publish their IRQ lines.
    fn update_all_cpus(&mut self)
        requires
            old(self).spis@.len() + 32 <= u32::MAX,
        ensures
            final(self).spis_written(old(self), old(self).spis@),
            final(self).synced(),
            final(self).irq_lines@ == old(self).irq_lines@,
    {
        let mut i: usize = 0;
        while i < self.cpu_interfaces.len()
            invariant
                i <= self.cpu_interfaces@.len(),
                self.cpu_interfaces@.len() == old(self).cpu_interfaces@.len(),
                self.spis@ == old(self).spis@,
                self.spis@.len() + 32 <= u32::MAX,
                self.config == old(self).config,
                self.dist_enabled == old(self).dist_enabled,
                self.security_enabled == old(self).security_enabled,
                self.are_s == old(self).are_s,
                self.are_ns == old(self).are_ns,
                self.irq_lines@ == old(self).irq_lines@,
                forall|j: int|
                    0 <= j < i ==> (#[trigger] self.cpu_interfaces@[j]).refreshed_from(
                        old(self).cpu_interfaces@[j],
                        self.spis@,
                    ),
                forall|j: int|
                    i <= j < self.cpu_interfaces@.len() ==> #[trigger] self.cpu_interfaces@[j]
                        == old(self).cpu_interfaces@[j],
            decreases self.cpu_interfaces@.len() - i,
        {
            self.cpu_interfaces[i].update_pending(&self.spis);
            if i < self.irq_lines.len() {
                let level = self.cpu_interfaces[i].pending_interrupt();
                self.irq_lines[i].store(level, std::sync::atomic::Ordering::Release);
            }
            i += 1;
        }
    }
}

/// A selection over `n` interrupt IDs is unique.
pub proof fn lemma_selection_unique(
    c: CpuInterface,
    spis: Seq<InterruptConfig>,
    n: int,
    p1: u8,
    i1: u32,
    p2: u8,
    i2: u32,
)
    requires
        c.selects(spis, n, p1, i1),
        c.selects(spis, n, p2, i2),
    ensures
        p1 == p2,
        i1 == i2,
{
    if (i1 as int) < n && c.eligible(spis, i1 as int) && c.config_of(spis, i1 as int).priority == p1
        && !(p1 == 0xFF && i1 == INTID_SPURIOUS && forall|j: int|
        0 <= j < n ==> !#[trigger] c.eligible(spis, j)) {
        if (i2 as int) < n && c.eligible(spis, i2 as int) {
            assert(p1 <= c.config_of(spis, i2 as int).priority);
            assert(p2 <= c.config_of(spis, i1 as int).priority);
            if i1 < i2 {
                assert(p2 < c.config_of(spis, i1 as int).priority);
            } else if i2 < i1 {
                assert(p1 < c.config_of(spis, i2 as int).priority);
            }
        } else {
            assert(!c.eligible(spis, i1 as int));
        }
    } else {
        if (i2 as int) < n && c.eligible(spis, i2 as int) {
            assert(!c.eligible(spis, i2 as int));
        }
    }
}

/// A selection names an existing interrupt or none.
pub proof fn lemma_selected_in_range(c: CpuInterface, spis: Seq<InterruptConfig>)
    requires
        c.pending_selected(spis),
    ensures
        c.pending_in_range(spis.len() as int),
{
}

proof fn lemma_synced_wf(g: Gic)
    requires
        g.synced(),
        g.spis@.len() == g.config.num_spis,
        g.cpu_interfaces@.len() == g.config.num_cpus,
        g.irq_lines@.len() == g.cpu_interfaces@.len(),
    ensures
        g.wf(),
{
    assert forall|i: int| 0 <= i < g.cpu_interfaces@.len() implies (
    #[trigger] g.cpu_interfaces@[i]).pending_in_range(g.spis@.len() as int) by {
        assert(g.cpu_table()[i].pending_selected(g.spi_table()));
        lemma_selected_in_range(g.cpu_interfaces@[i], g.spis@);
    }
}

impl Default for Gic {
    fn default() -> (r: Self)
        ensures
            r.wf(),
            r.synced(),
            r.gic_config() == default_gic_config(),
    {
        Self::new(GicConfig::default())
    }
}

// =============================================================================
// Register bit fields over interrupt tables
// =============================================================================

/// A one-bit-per-interrupt register field.
#[derive(Clone, Copy, PartialEq, Eq, Structural)]
pub enum FlagField {
    /// Group bit (group 1).
    Group,
    /// Enable bit.
    Enabled,
    /// Pending bit.
    Pending,
    /// Active bit.
    Active,
}

/// The value of a one-bit field of an interrupt's configuration.
pub open spec fn flag_of(c: InterruptConfig, f: FlagField) -> bool {
    match f {
        FlagField::Group => c.group == 1,
        FlagField::Enabled => c.enabled,
        FlagField::Pending => c.state.pending_bit(),
        FlagField::Active => c.state.active_bit(),
    }
}

fn config_flag(c: &InterruptConfig, f: FlagField) -> (r: bool)
    ensures
        r == flag_of(*c, f),
{
    match f {
        FlagField::Group => c.group == 1,
        FlagField::Enabled => c.enabled,
        FlagField::Pending => c.state.is_pending(),
        FlagField::Active => c.state.is_active(),
    }
}

/// A write to a one-bit-per-interrupt register field.
#[derive(Clone, Copy, PartialEq, Eq, Structural)]
pub enum FlagWrite {
    /// The bit becomes the group.
    Group,
    /// A set bit enables.
    SetEnable,
    /// A set bit disables.
    ClearEnable,
    /// A set bit makes pending.
    SetPending,
    /// A set bit clears pending.
    ClearPending,
    /// A set bit clears active.
    ClearActive,
}

/// An interrupt's configuration after a one-bit field write with bit `b`.
pub open spec fn flag_written(c: InterruptConfig, w: FlagWrite, b: bool) -> InterruptConfig {
    match w {
        FlagWrite::Group => InterruptConfig {
            group: if b {
                1
            } else {
                0
            },
            ..c
        },
        FlagWrite::SetEnable => if b {
            InterruptConfig { enabled: true, ..c }
        } else {
            c
        },
        FlagWrite::ClearEnable => if b {
            InterruptConfig { enabled: false, ..c }
        } else {
            c
        },
        FlagWrite::SetPending => if b {
            InterruptConfig {
                state: InterruptState::from_bits(true, c.state.active_bit()),
                ..c
            }
        } else {
            c
        },
        FlagWrite::ClearPending => if b {
            InterruptConfig {
                state: InterruptState::from_bits(false, c.state.active_bit()),
                ..c
            }
        } else {
            c
        },
        FlagWrite::ClearActive => if b {
            InterruptConfig {
                state: InterruptState::from_bits(c.state.pending_bit(), false),
                ..c
            }
        } else {
            c
        },
    }
}

fn write_flag(c: &mut InterruptConfig, w: FlagWrite, b: bool)
    ensures
        *final(c) == flag_written(*old(c), w, b),
{
    match w {
        FlagWrite::Group => {
            c.group = if b {
                1
            } else {
                0
            };
        },
        FlagWrite::SetEnable => {
            if b {
                c.enabled = true;
            }
        },
        FlagWrite::ClearEnable => {
            if b {
                c.enabled = false;
            }
        },
        FlagWrite::SetPending => {
            if b {
                c.state.set_pending();
            }
        },
        FlagWrite::ClearPending => {
            if b {
                c.state.clear_pending();
            }
        },
        FlagWrite::ClearActive => {
            if b {
                c.state.clear_active();
            }
        },
    }
}

/// Whether interrupt ID `intid` is an SPI of the table with field `f` set.
pub open spec fn spi_flag(spis: Seq<InterruptConfig>, intid: int, f: FlagField) -> bool {
    32 <= intid < 32 + spis.len() && flag_of(spis[intid - 32], f)
}

/// Priority of SPI `intid` if the table holds it, else 0.
pub open spec fn spi_priority(spis: Seq<InterruptConfig>, intid: int) -> u32 {
    if 32 <= intid < 32 + spis.len() {
        spis[intid - 32].priority as u32
    } else {
        0
    }
}

/// Whether SPI `intid` exists and is edge-triggered.
pub open spec fn spi_edge(spis: Seq<InterruptConfig>, intid: int) -> bool {
    32 <= intid < 32 + spis.len() && spis[intid - 32].trigger == TriggerType::Edge
}

/// The SPI table after a one-bit field write of `value` to the register
/// covering interrupt IDs `base..base+32`.
pub open spec fn spis_flag_written(
    spis: Seq<InterruptConfig>,
    base: int,
    value: u32,
    w: FlagWrite,
) -> Seq<InterruptConfig> {
    Seq::new(
        spis.len(),
        |j: int|
            if base <= j + 32 < base + 32 {
                flag_written(spis[j], w, bit_of(value, (j + 32 - base) as u32))
            } else {
                spis[j]
            },
    )
}

/// The SPI table after a write of `value` to the priority register covering
/// interrupt IDs `base..base+4`.
pub open spec fn spis_priority_written(spis: Seq<InterruptConfig>, base: int, value: u32) -> Seq<
    InterruptConfig,
> {
    Seq::new(
        spis.len(),
        |j: int|
            if base <= j + 32 < base + 4 {
                InterruptConfig {
                    priority: lane_of(value, (j + 32 - base) as u32) as u8,
                    ..spis[j]
                }
            } else {
                spis[j]
            },
    )
}

/// The SPI table after a write of `value` to the configuration register
/// covering interrupt IDs `base..base+16`: bit `2n+1` selects edge trigger.
pub open spec fn spis_trigger_written(spis: Seq<InterruptConfig>, base: int, value: u32) -> Seq<
    InterruptConfig,
> {
    Seq::new(
        spis.len(),
        |j: int|
            if base <= j + 32 < base + 16 {
                InterruptConfig {
                    trigger: if bit_of(value, (2 * (j + 32 - base) + 1) as u32) {
                        TriggerType::Edge
                    } else {
                        TriggerType::Level
                    },
                    ..spis[j]
                }
            } else {
                spis[j]
            },
    )
}

/// Bits of a one-bit-per-interrupt register over SPIs `base..base+32`.
fn spi_flag_mask(spis: &Vec<InterruptConfig>, base: usize, f: FlagField) -> (r: u32)
    requires
        base <= 4096,
    ensures
        forall|b: u32| b < 32 ==> bit_of(r, b) == spi_flag(spis@, base + b, f),
{
    let mut val = 0u32;
    let mut bit: usize = 0;
    proof {
        lemma_zero_word();
    }
    while bit < 32
        invariant
            bit <= 32,
            base <= 4096,
            forall|b: u32| b < bit ==> bit_of(val, b) == spi_flag(spis@, base + b, f),
            forall|b: u32| bit <= b < 32 ==> !bit_of(val, b),
        decreases 32 - bit,
    {
        let intid = base + bit;
        let mut set = false;
        if intid >= SPI_START as usize && (intid - SPI_START as usize) < spis.len() {
            if config_flag(&spis[intid - SPI_START as usize], f) {
                set = true;
            }
        }
        let ghost old_val = val;
        if set {
            val |= 1 << bit;
        }
        proof {
            assert forall|b: u32| b < 32 implies bit_of(val, b) == (if b == bit {
                set
            } else {
                bit_of(old_val, b)
            }) by {
                if set {
                    lemma_set_bit(old_val, bit as u32, b);
                }
            }
        }
        bit += 1;
    }
    val
}

/// Bits of a one-bit-per-interrupt register over a CPU's private
/// interrupts: bit `i` is interrupt `i`.
fn private_flag_mask(cpu: &CpuInterface, f: FlagField) -> (r: u32)
    ensures
        forall|b: u32| b < 32 ==> bit_of(r, b) == flag_of(cpu.private_interrupts@[b as int], f),
{
    let mut val = 0u32;
    let mut i: usize = 0;
    proof {
        lemma_zero_word();
    }
    while i < 32
        invariant
            i <= 32,
            forall|b: u32| b < i ==> bit_of(val, b) == flag_of(cpu.private_interrupts@[b as int], f),
            forall|b: u32| i <= b < 32 ==> !bit_of(val, b),
        decreases 32 - i,
    {
        let ghost old_val = val;
        let set = config_flag(&cpu.private_interrupts[i], f);
        if set {
            val |= 1 << i;
        }
        proof {
            assert forall|b: u32| b < 32 implies bit_of(val, b) == (if b == i {
                set
            } else {
                bit_of(old_val, b)
            }) by {
                if set {
                    lemma_set_bit(old_val, i as u32, b);
                }
            }
        }
        i += 1;
    }
    val
}

proof fn lemma_zero_word()
    ensures
        forall|b: u32| b < 32 ==> !bit_of(0, b),
        forall|k: u32| k < 4 ==> lane_of(0, k) == 0,
{
    assert forall|b: u32| b < 32 implies !bit_of(0, b) by {
        lemma_zero_bits(b);
    }
    assert forall|k: u32| k < 4 implies lane_of(0, k) == 0 by {
        lemma_zero_lanes(k);
    }
}

impl Gic {
    /// Apply a one-bit field write to the SPIs `base..base+32`.
    fn write_spi_flags(&mut self, base: usize, value: u32, w: FlagWrite)
        requires
            base <= 4096,
        ensures
            final(self).spis@ == spis_flag_written(old(self).spis@, base as int, value, w),
            final(self).cpu_interfaces@ == old(self).cpu_interfaces@,
            final(self).irq_lines@ == old(self).irq_lines@,
            final(self).config == old(self).config,
            final(self).dist_enabled == old(self).dist_enabled,
            final(self).security_enabled == old(self).security_enabled,
            final(self).are_s == old(self).are_s,
            final(self).are_ns == old(self).are_ns,
    {
        let mut bit: usize = 0;
        while bit < 32
            invariant
                bit <= 32,
                base <= 4096,
                self.spis@.len() == old(self).spis@.len(),
                forall|j: int|
                    0 <= j < self.spis@.len() ==> #[trigger] self.spis@[j] == if base <= j + 32
                        < base + bit {
                        flag_written(old(self).spis@[j], w, bit_of(value, (j + 32 - base) as u32))
                    } else {
                        old(self).spis@[j]
                    },
                self.cpu_interfaces@ == old(self).cpu_interfaces@,
                self.irq_lines@ == old(self).irq_lines@,
                self.config == old(self).config,
                self.dist_enabled == old(self).dist_enabled,
                self.security_enabled == old(self).security_enabled,
                self.are_s == old(self).are_s,
                self.are_ns == old(self).are_ns,
            decreases 32 - bit,
        {
            let b = (value >> bit) & 1 != 0;
            let intid = base + bit;
            if intid >= SPI_START as usize && (intid - SPI_START as usize) < self.spis.len() {
                proof {
                    lemma_bit_test(value, bit as u32);
                    assert(b == bit_of(value, bit as u32));
                }
                write_flag(&mut self.spis[intid - SPI_START as usize], w, b);
            }
            bit += 1;
        }
        proof {
            assert(self.spis@ =~= spis_flag_written(old(self).spis@, base as int, value, w));
        }
    }
}

/// Priority lanes of a priority register over SPIs `base..base+4`.
fn spi_priority_word(spis: &Vec<InterruptConfig>, base: usize) -> (r: u32)
    requires
        base <= 4096,
    ensures
        forall|k: u32| k < 4 ==> lane_of(r, k) == spi_priority(spis@, base + k),
{
    let mut val = 0u32;
    let mut byte: usize = 0;
    proof {
        lemma_zero_word();
    }
    while byte < 4
        invariant
            byte <= 4,
            base <= 4096,
            forall|k: u32| k < byte ==> lane_of(val, k) == spi_priority(spis@, base + k),
            forall|k: u32| byte <= k < 4 ==> lane_of(val, k) == 0,
        decreases 4 - byte,
    {
        let intid = base + byte;
        let mut p = 0u32;
        if intid >= SPI_START as usize && (intid - SPI_START as usize) < spis.len() {
            p = spis[intid - SPI_START as usize].priority as u32;
        }
        let ghost old_val = val;
        val |= p << (byte * 8);
        proof {
            assert forall|k: u32| k < 4 implies lane_of(val, k) == (if k == byte {
                p
            } else {
                lane_of(old_val, k)
            }) by {
                lemma_set_lane(old_val, p, byte as u32, k);
            }
        }
        byte += 1;
    }
    val
}

/// Trigger bits of a configuration register over SPIs `base..base+16`:
/// bit `2n+1` is set for an edge-triggered interrupt.
fn spi_trigger_word(spis: &Vec<InterruptConfig>, base: usize) -> (r: u32)
    requires
        base <= 4096,
    ensures
        forall|n: u32|
            n < 16 ==> bit_of(r, (2 * n + 1) as u32) == #[trigger] spi_edge(spis@, base + n) && !bit_of(r, (2 * n) as u32),
{
    let mut val = 0u32;
    let mut nibble: usize = 0;
    proof {
        lemma_zero_word();
    }
    while nibble < 16
        invariant
            nibble <= 16,
            base <= 4096,
            forall|n: u32|
                n < nibble ==> bit_of(val, (2 * n + 1) as u32) == #[trigger] spi_edge(spis@, base + n)
                    && !bit_of(val, (2 * n) as u32),
            forall|b: u32| 2 * nibble <= b < 32 ==> !bit_of(val, b),
        decreases 16 - nibble,
    {
        let intid = base + nibble;
        let mut edge = false;
        if intid >= SPI_START as usize && (intid - SPI_START as usize) < spis.len() {
            if spis[intid - SPI_START as usize].trigger == TriggerType::Edge {
                edge = true;
            }
        }
        assert(edge == spi_edge(spis@, base + nibble));
        let ghost old_val = val;
        if edge {
            val |= 2 << (nibble * 2);
        }
        proof {
            lemma_pair_bit(old_val, nibble as u32);
            assert forall|b: u32| b < 32 implies bit_of(val, b) == (if b == (2 * nibble + 1) as u32 {
                edge
            } else {
                bit_of(old_val, b)
            }) by {
                if edge {
                    lemma_set_bit(old_val, (2 * nibble + 1) as u32, b);
                }
            }
            assert forall|n: u32| n < nibble + 1 implies bit_of(val, (2 * n + 1) as u32)
                == #[trigger] spi_edge(spis@, base + n) && !bit_of(val, (2 * n) as u32) by {
                assert(bit_of(val, (2 * n + 1) as u32) == (if (2 * n + 1) as u32 == (2 * nibble
                    + 1) as u32 {
                    edge
                } else {
                    bit_of(old_val, (2 * n + 1) as u32)
                }));
                assert(bit_of(val, (2 * n) as u32) == bit_of(old_val, (2 * n) as u32));
                if n == nibble {
                    assert(!bit_of(old_val, (2 * n) as u32));
                    assert(bit_of(val, (2 * n + 1) as u32) == edge);
                } else {
                    assert(n < nibble);
                    assert(bit_of(old_val, (2 * n + 1) as u32) == spi_edge(spis@, base + n));
                    assert(!bit_of(old_val, (2 * n) as u32));
                }
            }
        }
        nibble += 1;
    }
    val
}

proof fn lemma_pair_bit(v: u32, n: u32)
    requires
        n < 16,
    ensures
        v | (2u32 << (n * 2)) == v | (1u32 << (2 * n + 1)),
{
    assert(v | (2u32 << (n * 2)) == v | (1u32 << (2 * n + 1))) by (bit_vector)
        requires
            n < 16,
    ;
}

/// GICD_CTLR as read: EnableGrp0/1 (bits 0-1), ARE_S (bit 4), ARE_NS
/// (bit 5), DS (bit 6).
pub open spec fn gicd_ctlr_value(enabled: bool, are_s: bool, are_ns: bool, security: bool) -> u32 {
    ((if enabled {
        3int
    } else {
        0
    }) + (if are_s {
        16int
    } else {
        0
    }) + (if are_ns {
        32int
    } else {
        0
    }) + (if security {
        64int
    } else {
        0
    })) as u32
}

/// GICD_TYPER as read: ITLinesNumber (bits 0-4), CPUNumber (bits 5-7),
/// SecurityExtn (bit 10), IDbits = 9 (bits 19-23), A3V (bit 24).
pub open spec fn gicd_typer_value(num_spis: u16, num_cpus: u8, security: bool) -> u32 {
    let it_lines: int = if num_spis / 32 >= 1 {
        num_spis / 32 - 1
    } else {
        0
    };
    (it_lines % 32 + ((num_cpus - 1) % 8) * 32 + (if security {
        1024int
    } else {
        0
    }) + 9 * 0x80000 + 0x100_0000) as u32
}

/// Whether a distributor offset holds one of the modelled registers.
pub open spec fn gicd_register(offset: u64) -> bool {
    ||| offset == 0 || offset == 4 || offset == 8 || offset == 0xC || offset == 0xFFE8
    ||| 0x80 <= offset <= 0xFC
    ||| 0x100 <= offset <= 0x17C
    ||| 0x200 <= offset <= 0x27C
    ||| 0x400 <= offset <= 0x7F8
    ||| 0x800 <= offset <= 0x8FC
    ||| 0xC00 <= offset <= 0xCFC
}

proof fn lemma_ctlr_value(enabled: bool, are_s: bool, are_ns: bool, security: bool, v0: u32)
    requires
        v0 == if enabled {
            (0u32 | 1u32) | 2u32
        } else {
            0u32
        },
    ensures
        ({
            let v1 = if are_s {
                v0 | (1u32 << 4u32)
            } else {
                v0
            };
            let v2 = if are_ns {
                v1 | (1u32 << 5u32)
            } else {
                v1
            };
            let v3 = if security {
                v2 | (1u32 << 6u32)
            } else {
                v2
            };
            v3 == gicd_ctlr_value(enabled, are_s, are_ns, security)
        }),
{
    assert((0u32 | 1u32) | 2u32 == 3u32) by (bit_vector);
    let v1 = if are_s {
        v0 | (1u32 << 4u32)
    } else {
        v0
    };
    assert(v0 < 16 ==> v0 | (1u32 << 4u32) == v0 + 16) by (bit_vector);
    let v2 = if are_ns {
        v1 | (1u32 << 5u32)
    } else {
        v1
    };
    assert(v1 < 32 ==> v1 | (1u32 << 5u32) == v1 + 32) by (bit_vector);
    assert(v2 < 64 ==> v2 | (1u32 << 6u32) == v2 + 64) by (bit_vector);
}

proof fn lemma_typer_value(it: u32, cpus: u32, sec: u32)
    requires
        sec <= 1,
    ensures
        (it & 0x1F) | ((cpus & 0x7) << 5u32) | (sec << 10u32) | (0u32 << 16u32) | (0u32 << 17u32)
            | (0u32 << 18u32) | ((9u32 & 0x1F) << 19u32) | (1u32 << 24u32) | (0u32 << 25u32) == (it
            % 32) + (cpus % 8) * 32 + sec * 1024 + 9 * 0x80000 + 0x100_0000,
{
    assert((it & 0x1F) | ((cpus & 0x7) << 5u32) | (sec << 10u32) | (0u32 << 16u32) | (0u32
        << 17u32) | (0u32 << 18u32) | ((9u32 & 0x1F) << 19u32) | (1u32 << 24u32) | (0u32 << 25u32)
        == (it % 32) + (cpus % 8) * 32 + sec * 1024 + 9 * 0x80000 + 0x100_0000) by (bit_vector)
        requires
            sec <= 1,
    ;
}

impl Gic {
    /// `r` is what reading distributor register `offset` gives.
    pub open spec fn dist_reads(&self, offset: u64, r: u32) -> bool {
        let spis = self.spi_table();
        &&& offset == 0 ==> r == gicd_ctlr_value(
            self.distributor_enabled(),
            self.affinity_routing().0,
            self.affinity_routing().1,
            self.security(),
        )
        &&& offset == 4 ==> r == gicd_typer_value(
            self.gic_config().num_spis,
            self.gic_config().num_cpus,
            self.security(),
        )
        &&& offset == 8 ==> r == 0x0200_043B
        &&& offset == 0xC ==> r == 0
        &&& 0x80 <= offset <= 0xFC ==> forall|b: u32|
            b < 32 ==> bit_of(r, b) == #[trigger] spi_flag(
                spis,
                (offset - 0x80) / 4 * 32 + b,
                FlagField::Group,
            )
        &&& 0x100 <= offset <= 0x17C ==> forall|b: u32|
            b < 32 ==> bit_of(r, b) == #[trigger] spi_flag(
                spis,
                (offset - 0x100) / 4 * 32 + b,
                FlagField::Enabled,
            )
        &&& 0x200 <= offset <= 0x27C ==> forall|b: u32|
            b < 32 ==> bit_of(r, b) == #[trigger] spi_flag(
                spis,
                (offset - 0x200) / 4 * 32 + b,
                FlagField::Pending,
            )
        &&& 0x400 <= offset <= 0x7F8 ==> forall|k: u32|
            k < 4 ==> lane_of(r, k) == #[trigger] spi_priority(spis, (offset - 0x400) / 4 * 4 + k)
        &&& 0x800 <= offset <= 0x8FC ==> r == 0x0101_0101
        &&& 0xC00 <= offset <= 0xCFC ==> forall|n: u32|
            n < 16 ==> bit_of(r, (2 * n + 1) as u32) == #[trigger] spi_edge(
                spis,
                (offset - 0xC00) / 4 * 16 + n,
            ) && !bit_of(r, (2 * n) as u32)
        &&& offset == 0xFFE8 ==> r == 0x3B
        &&& !gicd_register(offset) ==> r == 0
    }

    /// Read distributor register.
    pub fn read_dist(&self, offset: u64) -> (r: u32)
        requires
            self.wf(),
            offset == 4 ==> self.gic_config().num_cpus >= 1,
        ensures
            self.dist_reads(offset, r),
    {
        if offset == 0x0000 {
            // GICD_CTLR
            let mut val = 0u32;
            if self.dist_enabled {
                val |= 1;  // EnableGrp0
                val |= 2;  // EnableGrp1
            }
            let ghost v0 = val;
            if self.are_s {
                val |= 1 << 4;  // ARE_S
            }
            if self.are_ns {
                val |= 1 << 5;  // ARE_NS
            }
            if self.security_enabled {
                val |= 1 << 6;  // DS
            }
            proof {
                lemma_ctlr_value(self.dist_enabled, self.are_s, self.are_ns, self.security_enabled, v0);
            }
            val
        } else if offset == 0x0004 {
            // GICD_TYPER
            let it_lines = (self.config.num_spis / 32).saturating_sub(1) as u32;
            let cpu_number = (self.config.num_cpus - 1) as u32;
            let security: u32 = if self.security_enabled {
                1
            } else {
                0
            };
            let mbis: u32 = 0;  // No message-based interrupts
            let lpis: u32 = 0;  // No LPIs
            let dvis: u32 = 0;  // No direct virtual LPI injection
            let id_bits: u32 = 0b1001;  // 10 bits of INTID
            let a3v: u32 = 1;  // Affinity 3 valid
            let no1n: u32 = 0;  // 1-of-N supported
            proof {
                lemma_typer_value(it_lines, cpu_number, security);
            }
            (it_lines & 0x1F) | ((cpu_number & 0x7) << 5) | (security << 10) | (mbis << 16) | (lpis
                << 17) | (dvis << 18) | ((id_bits & 0x1F) << 19) | (a3v << 24) | (no1n << 25)
        } else if offset == 0x0008 {
            // GICD_IIDR: implementer ARM (0x43B)
            0x0200_043B
        } else if offset == 0x000C {
            // GICD_TYPER2
            0
        } else if 0x0080 <= offset && offset <= 0x00FC {
            // GICD_IGROUPR0-31 (Interrupt Group Registers)
            let reg = ((offset - 0x0080) / 4) as usize;
            spi_flag_mask(&self.spis, reg * 32, FlagField::Group)
        } else if 0x0100 <= offset && offset <= 0x017C {
            // GICD_ISENABLER0-31 (Interrupt Set-Enable)
            let reg = ((offset - 0x0100) / 4) as usize;
            spi_flag_mask(&self.spis, reg * 32, FlagField::Enabled)
        } else if 0x0200 <= offset && offset <= 0x027C {
            // GICD_ISPENDR0-31 (Interrupt Set-Pending)
            let reg = ((offset - 0x0200) / 4) as usize;
            spi_flag_mask(&self.spis, reg * 32, FlagField::Pending)
        } else if 0x0400 <= offset && offset <= 0x07F8 {
            // GICD_IPRIORITYR0-254 (Interrupt Priority)
            let reg = ((offset - 0x0400) / 4) as usize;
            spi_priority_word(&self.spis, reg * 4)
        } else if 0x0800 <= offset && offset <= 0x08FC {
            // GICD_ITARGETSR0-254 (Interrupt Processor Targets) - GICv2 only: all to CPU0
            0x0101_0101
        } else if 0x0C00 <= offset && offset <= 0x0CFC {
            // GICD_ICFGR0-63 (Interrupt Configuration)
            let reg = ((offset - 0x0C00) / 4) as usize;
            spi_trigger_word(&self.spis, reg * 16)
        } else if offset == 0xFFE8 {
            // GICD_PIDR2: GICv3
            0x3B
        } else {
            0
        }
    }
}

impl Gic {
    /// Write `value` to the priority register over SPIs `base..base+4`.
    fn write_spi_priorities(&mut self, base: usize, value: u32)
        requires
            base <= 4096,
        ensures
            final(self).spis@ == spis_priority_written(old(self).spis@, base as int, value),
            final(self).cpu_interfaces@ == old(self).cpu_interfaces@,
            final(self).irq_lines@ == old(self).irq_lines@,
            final(self).config == old(self).config,
            final(self).dist_enabled == old(self).dist_enabled,
            final(self).security_enabled == old(self).security_enabled,
            final(self).are_s == old(self).are_s,
            final(self).are_ns == old(self).are_ns,
    {
        let mut byte: usize = 0;
        while byte < 4
            invariant
                byte <= 4,
                base <= 4096,
                self.spis@.len() == old(self).spis@.len(),
                forall|j: int|
                    0 <= j < self.spis@.len() ==> #[trigger] self.spis@[j] == if base <= j + 32
                        < base + byte {
                        InterruptConfig {
                            priority: lane_of(value, (j + 32 - base) as u32) as u8,
                            ..old(self).spis@[j]
                        }
                    } else {
                        old(self).spis@[j]
                    },
                self.cpu_interfaces@ == old(self).cpu_interfaces@,
                self.irq_lines@ == old(self).irq_lines@,
                self.config == old(self).config,
                self.dist_enabled == old(self).dist_enabled,
                self.security_enabled == old(self).security_enabled,
                self.are_s == old(self).are_s,
                self.are_ns == old(self).are_ns,
            decreases 4 - byte,
        {
            let intid = base + byte;
            if intid >= SPI_START as usize && (intid - SPI_START as usize) < self.spis.len() {
                self.spis[intid - SPI_START as usize].priority = ((value >> (byte * 8)) & 0xFF) as u8;
            }
            byte += 1;
        }
        proof {
            assert(self.spis@ =~= spis_priority_written(old(self).spis@, base as int, value));
        }
    }

    /// Write `value` to the configuration register over SPIs
    /// `base..base+16`.
    fn write_spi_triggers(&mut self, base: usize, value: u32)
        requires
            base <= 4096,
        ensures
            final(self).spis@ == spis_trigger_written(old(self).spis@, base as int, value),
            final(self).cpu_interfaces@ == old(self).cpu_interfaces@,
            final(self).irq_lines@ == old(self).irq_lines@,
            final(self).config == old(self).config,
            final(self).dist_enabled == old(self).dist_enabled,
            final(self).security_enabled == old(self).security_enabled,
            final(self).are_s == old(self).are_s,
            final(self).are_ns == old(self).are_ns,
    {
        let mut nibble: usize = 0;
        while nibble < 16
            invariant
                nibble <= 16,
                base <= 4096,
                self.spis@.len() == old(self).spis@.len(),
                forall|j: int|
                    0 <= j < self.spis@.len() ==> #[trigger] self.spis@[j] == if base <= j + 32
                        < base + nibble {
                        InterruptConfig {
                            trigger: if bit_of(value, (2 * (j + 32 - base) + 1) as u32) {
                                TriggerType::Edge
                            } else {
                                TriggerType::Level
                            },
                            ..old(self).spis@[j]
                        }
                    } else {
                        old(self).spis@[j]
                    },
                self.cpu_interfaces@ == old(self).cpu_interfaces@,
                self.irq_lines@ == old(self).irq_lines@,
                self.config == old(self).config,
                self.dist_enabled == old(self).dist_enabled,
                self.security_enabled == old(self).security_enabled,
                self.are_s == old(self).are_s,
                self.are_ns == old(self).are_ns,
            decreases 16 - nibble,
        {
            let intid = base + nibble;
            if intid >= SPI_START as usize && (intid - SPI_START as usize) < self.spis.len() {
                proof {
                    lemma_bit_test(value, (nibble * 2 + 1) as u32);
                }
                self.spis[intid - SPI_START as usize].trigger = if (value >> (nibble * 2 + 1)) & 1
                    != 0 {
                    TriggerType::Edge
                } else {
                    TriggerType::Level
                };
            }
            nibble += 1;
        }
        proof {
            assert(self.spis@ =~= spis_trigger_written(old(self).spis@, base as int, value));
        }
    }

    /// `self` is `o` after writing `value` to distributor register
    /// `offset`. Writes that change enable, pending or priority state make
    /// every CPU re-select its highest pending interrupt; group, trigger
    /// and control writes leave the CPU interfaces as they were.
    pub open spec fn dist_written(&self, o: &Gic, offset: u64, value: u32) -> bool {
        let spis = o.spi_table();
        &&& self.gic_config() == o.gic_config()
        &&& self.security() == o.security()
        &&& self.num_lines() == o.num_lines()
        &&& offset == 0 ==> {
            &&& self.distributor_enabled() == (value & 3 != 0)
            &&& self.affinity_routing() == (bit_of(value, 4), bit_of(value, 5))
            &&& self.spi_table() == spis
            &&& self.cpu_table() == o.cpu_table()
        }
        &&& offset != 0 ==> self.distributor_enabled() == o.distributor_enabled()
            && self.affinity_routing() == o.affinity_routing()
        &&& 0x80 <= offset <= 0xFC ==> self.spi_table() == spis_flag_written(
            spis,
            (offset - 0x80) / 4 * 32,
            value,
            FlagWrite::Group,
        ) && self.cpu_table() == o.cpu_table()
        &&& 0x100 <= offset <= 0x17C ==> self.spis_written(
            o,
            spis_flag_written(spis, (offset - 0x100) / 4 * 32, value, FlagWrite::SetEnable),
        ) && self.synced()
        &&& 0x180 <= offset <= 0x1FC ==> self.spis_written(
            o,
            spis_flag_written(spis, (offset - 0x180) / 4 * 32, value, FlagWrite::ClearEnable),
        ) && self.synced()
        &&& 0x200 <= offset <= 0x27C ==> self.spis_written(
            o,
            spis_flag_written(spis, (offset - 0x200) / 4 * 32, value, FlagWrite::SetPending),
        ) && self.synced()
        &&& 0x280 <= offset <= 0x2FC ==> self.spis_written(
            o,
            spis_flag_written(spis, (offset - 0x280) / 4 * 32, value, FlagWrite::ClearPending),
        ) && self.synced()
        &&& 0x400 <= offset <= 0x7F8 ==> self.spis_written(
            o,
            spis_priority_written(spis, (offset - 0x400) / 4 * 4, value),
        ) && self.synced()
        &&& 0xC00 <= offset <= 0xCFC ==> self.spi_table() == spis_trigger_written(
            spis,
            (offset - 0xC00) / 4 * 16,
            value,
        ) && self.cpu_table() == o.cpu_table()
        &&& 0x6100 <= offset <= 0x7FD8 ==> {
            let idx = (offset - 0x6100) / 8;
            self.spis_written(
                o,
                if idx < spis.len() {
                    spis.update(
                        idx,
                        InterruptConfig {
                            routing: if bit_of(value, 31) {
                                RoutingMode::Any
                            } else {
                                RoutingMode::Affinity((value & 0x00FF_FFFF) as u64)
                            },
                            ..spis[idx]
                        },
                    )
                } else {
                    spis
                },
            ) && self.synced()
        }
        &&& !gicd_writable(offset) ==> *self == *o
    }

    /// Write distributor register.
    pub fn write_dist(&mut self, offset: u64, value: u32)
        requires
            old(self).wf(),
        ensures
            final(self).wf(),
            final(self).shaped(),
            final(self).gic_config() == old(self).gic_config(),
            final(self).dist_written(old(self), offset, value),
    {
        if offset == 0x0000 {
            // GICD_CTLR
            self.dist_enabled = (value & 0x3) != 0;
            self.are_s = (value >> 4) & 1 != 0;
            self.are_ns = (value >> 5) & 1 != 0;
            proof {
                lemma_bit_test(value, 4);
                lemma_bit_test(value, 5);
            }
        } else if 0x0080 <= offset && offset <= 0x00FC {
            // GICD_IGROUPR0-31
            let reg = ((offset - 0x0080) / 4) as usize;
            self.write_spi_flags(reg * 32, value, FlagWrite::Group);
        } else if 0x0100 <= offset && offset <= 0x017C {
            // GICD_ISENABLER0-31
            let reg = ((offset - 0x0100) / 4) as usize;
            self.write_spi_flags(reg * 32, value, FlagWrite::SetEnable);
            self.update_all_cpus();
        } else if 0x0180 <= offset && offset <= 0x01FC {
            // GICD_ICENABLER0-31
            let reg = ((offset - 0x0180) / 4) as usize;
            self.write_spi_flags(reg * 32, value, FlagWrite::ClearEnable);
            self.update_all_cpus();
        } else if 0x0200 <= offset && offset <= 0x027C {
            // GICD_ISPENDR0-31
            let reg = ((offset - 0x0200) / 4) as usize;
            self.write_spi_flags(reg * 32, value, FlagWrite::SetPending);
            self.update_all_cpus();
        } else if 0x0280 <= offset && offset <= 0x02FC {
            // GICD_ICPENDR0-31
            let reg = ((offset - 0x0280) / 4) as usize;
            self.write_spi_flags(reg * 32, value, FlagWrite::ClearPending);
            self.update_all_cpus();
        } else if 0x0400 <= offset && offset <= 0x07F8 {
            // GICD_IPRIORITYR0-254
            let reg = ((offset - 0x0400) / 4) as usize;
            self.write_spi_priorities(reg * 4, value);
            self.update_all_cpus();
        } else if 0x0C00 <= offset && offset <= 0x0CFC {
            // GICD_ICFGR0-63
            let reg = ((offset - 0x0C00) / 4) as usize;
            self.write_spi_triggers(reg * 16, value);
        } else if 0x6100 <= offset && offset <= 0x7FD8 {
            // GICD_IROUTER32-1019 (Interrupt Routing)
            let intid = ((offset - 0x6100) / 8) as usize + SPI_START as usize;
            if intid >= SPI_START as usize && (intid - SPI_START as usize) < self.spis.len() {
                let irm = (value >> 31) & 1 != 0;
                let affinity = (value & 0x00FF_FFFF) as u64;
                proof {
                    lemma_bit_test(value, 31);
                }
                self.spis[intid - SPI_START as usize].routing = if irm {
                    RoutingMode::Any
                } else {
                    RoutingMode::Affinity(affinity)
                };
            }
            self.update_all_cpus();
        }
        proof {
            lemma_table_wf(*old(self), *self);
        }
    }
}

/// Whether a distributor offset holds a register with a modelled write.
pub open spec fn gicd_writable(offset: u64) -> bool {
    ||| offset == 0
    ||| 0x80 <= offset <= 0x2FC
    ||| 0x400 <= offset <= 0x7F8
    ||| 0xC00 <= offset <= 0xCFC
    ||| 0x6100 <= offset <= 0x7FD8
}

/// Well-formedness survives any change that keeps the table sizes and
/// either keeps the CPU interfaces or leaves them synced.
proof fn lemma_table_wf(o: Gic, g: Gic)
    requires
        o.wf(),
        g.config == o.config,
        g.spis@.len() == o.spis@.len(),
        g.irq_lines@.len() == o.irq_lines@.len(),
        g.cpu_interfaces@ == o.cpu_interfaces@ || (g.synced() && g.cpu_interfaces@.len()
            == o.cpu_interfaces@.len()),
    ensures
        g.wf(),
{
    if g.cpu_interfaces@ != o.cpu_interfaces@ {
        lemma_synced_wf(g);
    }
}

/// Priority lanes of a redistributor priority register over private
/// interrupts `base..base+4`.
fn private_priority_word(cpu: &CpuInterface, base: usize) -> (r: u32)
    requires
        base <= 28,
    ensures
        forall|k: u32|
            k < 4 ==> lane_of(r, k) == (#[trigger] cpu.private_interrupts@[base + k]).priority as u32,
{
    let mut val = 0u32;
    let mut byte: usize = 0;
    proof {
        lemma_zero_word();
    }
    while byte < 4
        invariant
            byte <= 4,
            base <= 28,
            forall|k: u32|
                k < byte ==> lane_of(val, k) == (#[trigger] cpu.private_interrupts@[base
                    + k]).priority as u32,
            forall|k: u32| byte <= k < 4 ==> lane_of(val, k) == 0,
        decreases 4 - byte,
    {
        let p = cpu.private_interrupts[base + byte].priority as u32;
        let ghost old_val = val;
        val |= p << (byte * 8);
        proof {
            assert forall|k: u32| k < 4 implies lane_of(val, k) == (if k == byte {
                p
            } else {
                lane_of(old_val, k)
            }) by {
                lemma_set_lane(old_val, p, byte as u32, k);
            }
        }
        byte += 1;
    }
    val
}

/// Trigger bits of GICR_ICFGR1: bit `2n+1` is set when PPI `16+n` is
/// edge-triggered.
fn ppi_trigger_word(cpu: &CpuInterface) -> (r: u32)
    ensures
        forall|n: u32|
            n < 16 ==> bit_of(r, (2 * n + 1) as u32) == ((#[trigger] cpu.private_interrupts@[16
                + n]).trigger == TriggerType::Edge) && !bit_of(r, (2 * n) as u32),
{
    let mut val = 0u32;
    let mut i: usize = 0;
    proof {
        lemma_zero_word();
    }
    while i < NUM_PPI
        invariant
            i <= 16,
            forall|n: u32|
                n < i ==> bit_of(val, (2 * n + 1) as u32) == ((
                #[trigger] cpu.private_interrupts@[16 + n]).trigger == TriggerType::Edge) && !bit_of(
                    val,
                    (2 * n) as u32,
                ),
            forall|b: u32| 2 * i <= b < 32 ==> !bit_of(val, b),
        decreases 16 - i,
    {
        let edge = cpu.private_interrupts[NUM_SGI + i].trigger == TriggerType::Edge;
        let ghost old_val = val;
        if edge {
            val |= 0b10 << (i * 2);
        }
        proof {
            lemma_pair_bit(old_val, i as u32);
            assert forall|b: u32| b < 32 implies bit_of(val, b) == (if b == (2 * i + 1) as u32 {
                edge
            } else {
                bit_of(old_val, b)
            }) by {
                if edge {
                    lemma_set_bit(old_val, (2 * i + 1) as u32, b);
                }
            }
            assert forall|n: u32| n < i + 1 implies bit_of(val, (2 * n + 1) as u32) == ((
            #[trigger] cpu.private_interrupts@[16 + n]).trigger == TriggerType::Edge) && !bit_of(
                val,
                (2 * n) as u32,
            ) by {
                assert(bit_of(val, (2 * n + 1) as u32) == (if (2 * n + 1) as u32 == (2 * i
                    + 1) as u32 {
                    edge
                } else {
                    bit_of(old_val, (2 * n + 1) as u32)
                }));
                assert(bit_of(val, (2 * n) as u32) == bit_of(old_val, (2 * n) as u32));
                if n == i {
                    assert(!bit_of(old_val, (2 * n) as u32));
                    assert(bit_of(val, (2 * n + 1) as u32) == edge);
                } else {
                    assert(n < i);
                    assert(!bit_of(old_val, (2 * n) as u32));
                }
            }
        }
        i += 1;
    }
    val
}

/// Whether a redistributor offset holds one of the modelled registers.
pub open spec fn gicr_register(offset: u64) -> bool {
    ||| offset == 0 || offset == 4 || offset == 8 || offset == 0xC || offset == 0x14
    ||| offset == 0xFFE8
    ||| offset == 0x10080 || offset == 0x10100 || offset == 0x10180 || offset == 0x10200
    ||| offset == 0x10280 || offset == 0x10300 || offset == 0x10380
    ||| 0x10400 <= offset <= 0x1041C
    ||| offset == 0x10C00 || offset == 0x10C04
}

impl Gic {
    /// `r` is what reading redistributor register `offset` of CPU `cpu_id`
    /// gives.
    pub open spec fn redist_reads(&self, cpu_id: usize, offset: u64, r: u32) -> bool {
        let cpus = self.cpu_table();
        let c = cpus[cpu_id as int];
        let p = c.private_interrupts@;
        &&& cpu_id >= cpus.len() ==> r == 0
        &&& cpu_id < cpus.len() ==> {
            &&& offset == 0 ==> r == 0
            &&& offset == 4 ==> r == 0x0200_043B
            &&& offset == 8 ==> r == cpu_id * 256 + if cpu_id + 1 == cpus.len() {
                16int
            } else {
                0
            }
            &&& offset == 0xC ==> r == c.affinity as u32
            &&& offset == 0x14 ==> r == if c.waker_processor_sleep {
                6u32
            } else {
                0
            }
            &&& offset == 0xFFE8 ==> r == 0x3B
            &&& offset == 0x10080 ==> forall|b: u32|
                b < 32 ==> bit_of(r, b) == flag_of(#[trigger] p[b as int], FlagField::Group)
            &&& (offset == 0x10100 || offset == 0x10180) ==> forall|b: u32|
                b < 32 ==> bit_of(r, b) == flag_of(#[trigger] p[b as int], FlagField::Enabled)
            &&& (offset == 0x10200 || offset == 0x10280) ==> forall|b: u32|
                b < 32 ==> bit_of(r, b) == flag_of(#[trigger] p[b as int], FlagField::Pending)
            &&& (offset == 0x10300 || offset == 0x10380) ==> forall|b: u32|
                b < 32 ==> bit_of(r, b) == flag_of(#[trigger] p[b as int], FlagField::Active)
            &&& 0x10400 <= offset <= 0x1041C ==> forall|k: u32|
                k < 4 ==> lane_of(r, k) == (#[trigger] p[(offset - 0x10400) / 4 * 4
                    + k]).priority as u32
            &&& offset == 0x10C00 ==> r == 0xAAAA_AAAA
            &&& offset == 0x10C04 ==> forall|n: u32|
                n < 16 ==> bit_of(r, (2 * n + 1) as u32) == ((#[trigger] p[16 + n]).trigger
                    == TriggerType::Edge) && !bit_of(r, (2 * n) as u32)
            &&& !gicr_register(offset) ==> r == 0
        }
    }

    /// Read redistributor register for a CPU (offset within its 128KB
    /// frame: RD_base at +0x0000, SGI_base at +0x10000).
    pub fn read_redist(&self, cpu_id: usize, offset: u64) -> (r: u32)
        requires
            self.wf(),
        ensures
            self.redist_reads(cpu_id, offset, r),
    {
        if cpu_id >= self.cpu_interfaces.len() {
            return 0;
        }
        let cpu = &self.cpu_interfaces[cpu_id];
        if offset == 0x0000 {
            // GICR_CTLR: no LPIs, no register writes in progress
            0
        } else if offset == 0x0004 {
            // GICR_IIDR (same implementer as the distributor)
            0x0200_043B
        } else if offset == 0x0008 {
            // GICR_TYPER (low): processor number, Last on the final CPU
            let mut val = (cpu_id as u32) << 8;
            let ghost v0 = val;
            proof {
                let c = cpu_id as u32;
                assert(c < 256 ==> (c << 8) == c * 256 && ((c << 8) | (1u32 << 4)) == c * 256 + 16)
                    by (bit_vector);
            }
            if cpu_id + 1 == self.cpu_interfaces.len() {
                val |= 1 << 4;  // Last
            }
            val
        } else if offset == 0x000C {
            // GICR_TYPER (high): affinity value
            cpu.affinity as u32
        } else if offset == 0x0014 {
            // GICR_WAKER
            if cpu.waker_processor_sleep {
                proof {
                    assert((1u32 << 1u32) | (1u32 << 2u32) == 6u32) by (bit_vector);
                }
                (1 << 1) | (1 << 2)  // ProcessorSleep | ChildrenAsleep

            } else {
                0
            }
        } else if offset == 0xFFE8 {
            // GICR_PIDR2: GICv3
            0x3B
        } else if offset == 0x10080 {
            // GICR_IGROUPR0
            private_flag_mask(cpu, FlagField::Group)
        } else if offset == 0x10100 || offset == 0x10180 {
            // GICR_ISENABLER0 / GICR_ICENABLER0
            private_flag_mask(cpu, FlagField::Enabled)
        } else if offset == 0x10200 || offset == 0x10280 {
            // GICR_ISPENDR0 / GICR_ICPENDR0
            private_flag_mask(cpu, FlagField::Pending)
        } else if offset == 0x10300 || offset == 0x10380 {
            // GICR_ISACTIVER0 / GICR_ICACTIVER0
            private_flag_mask(cpu, FlagField::Active)
        } else if 0x10400 <= offset && offset <= 0x1041C {
            // GICR_IPRIORITYR0-7
            let base = ((offset - 0x10400) / 4) as usize * 4;
            private_priority_word(cpu, base)
        } else if offset == 0x10C00 {
            // GICR_ICFGR0: SGIs are always edge-triggered
            0xAAAA_AAAA
        } else if offset == 0x10C04 {
            // GICR_ICFGR1: PPI trigger config
            ppi_trigger_word(cpu)
        } else {
            0
        }
    }
}

/// A private table after a one-bit field write: bit `i` goes to
/// interrupt `i`.
pub open spec fn private_flag_written(p: Seq<InterruptConfig>, value: u32, w: FlagWrite) -> Seq<
    InterruptConfig,
> {
    Seq::new(p.len(), |i: int| flag_written(p[i], w, bit_of(value, i as u32)))
}

/// A private table after a write of `value` to the priority register over
/// interrupts `base..base+4`.
pub open spec fn private_priority_written(p: Seq<InterruptConfig>, base: int, value: u32) -> Seq<
    InterruptConfig,
> {
    Seq::new(
        p.len(),
        |i: int|
            if base <= i < base + 4 {
                InterruptConfig { priority: lane_of(value, (i - base) as u32) as u8, ..p[i] }
            } else {
                p[i]
            },
    )
}

/// A private table after a GICR_ICFGR1 write: bit `2n+1` selects edge
/// trigger for PPI `16+n`.
pub open spec fn ppi_trigger_written(p: Seq<InterruptConfig>, value: u32) -> Seq<InterruptConfig> {
    Seq::new(
        p.len(),
        |i: int|
            if 16 <= i < 32 {
                InterruptConfig {
                    trigger: if bit_of(value, (2 * (i - 16) + 1) as u32) {
                        TriggerType::Edge
                    } else {
                        TriggerType::Level
                    },
                    ..p[i]
                }
            } else {
                p[i]
            },
    )
}

/// The private table of a CPU after writing `value` to its redistributor
/// register `offset`.
pub open spec fn redist_private(p: Seq<InterruptConfig>, offset: u64, value: u32) -> Seq<
    InterruptConfig,
> {
    if offset == 0x10080 {
        private_flag_written(p, value, FlagWrite::Group)
    } else if offset == 0x10100 {
        private_flag_written(p, value, FlagWrite::SetEnable)
    } else if offset == 0x10180 {
        private_flag_written(p, value, FlagWrite::ClearEnable)
    } else if offset == 0x10200 {
        private_flag_written(p, value, FlagWrite::SetPending)
    } else if offset == 0x10280 {
        private_flag_written(p, value, FlagWrite::ClearPending)
    } else if offset == 0x10380 {
        private_flag_written(p, value, FlagWrite::ClearActive)
    } else if 0x10400 <= offset <= 0x1041C {
        private_priority_written(p, ((offset - 0x10400) / 4 * 4) as int, value)
    } else if offset == 0x10C04 {
        ppi_trigger_written(p, value)
    } else {
        p
    }
}

impl CpuInterface {
    /// Apply a one-bit field write to the private interrupts.
    fn write_private_flags(&mut self, value: u32, w: FlagWrite)
        ensures
            final(self).private_interrupts@ == private_flag_written(
                old(self).private_interrupts@,
                value,
                w,
            ),
            final(self).same_registers(*old(self)),
            final(self).active_priorities@ == old(self).active_priorities@,
            final(self).running_priority == old(self).running_priority,
            final(self).highest_pending_priority == old(self).highest_pending_priority,
            final(self).highest_pending_intid == old(self).highest_pending_intid,
    {
        let mut i: usize = 0;
        while i < 32
            invariant
                i <= 32,
                forall|j: int|
                    0 <= j < 32 ==> #[trigger] self.private_interrupts@[j] == if j < i {
                        flag_written(old(self).private_interrupts@[j], w, bit_of(value, j as u32))
                    } else {
                        old(self).private_interrupts@[j]
                    },
                self.same_registers(*old(self)),
                self.active_priorities@ == old(self).active_priorities@,
                self.running_priority == old(self).running_priority,
                self.highest_pending_priority == old(self).highest_pending_priority,
                self.highest_pending_intid == old(self).highest_pending_intid,
            decreases 32 - i,
        {
            proof {
                lemma_bit_test(value, i as u32);
            }
            let b = (value >> i) & 1 != 0;
            write_flag(&mut self.private_interrupts[i], w, b);
            i += 1;
        }
        proof {
            assert(self.private_interrupts@ =~= private_flag_written(
                old(self).private_interrupts@,
                value,
                w,
            ));
        }
    }

    /// Write `value` to the priority register over private interrupts
    /// `base..base+4`.
    fn write_private_priorities(&mut self, base: usize, value: u32)
        requires
            base <= 28,
        ensures
            final(self).private_interrupts@ == private_priority_written(
                old(self).private_interrupts@,
                base as int,
                value,
            ),
            final(self).same_registers(*old(self)),
            final(self).active_priorities@ == old(self).active_priorities@,
            final(self).running_priority == old(self).running_priority,
            final(self).highest_pending_priority == old(self).highest_pending_priority,
            final(self).highest_pending_intid == old(self).highest_pending_intid,
    {
        let mut byte: usize = 0;
        while byte < 4
            invariant
                byte <= 4,
                base <= 28,
                forall|j: int|
                    0 <= j < 32 ==> #[trigger] self.private_interrupts@[j] == if base <= j < base
                        + byte {
                        InterruptConfig {
                            priority: lane_of(value, (j - base) as u32) as u8,
                            ..old(self).private_interrupts@[j]
                        }
                    } else {
                        old(self).private_interrupts@[j]
                    },
                self.same_registers(*old(self)),
                self.active_priorities@ == old(self).active_priorities@,
                self.running_priority == old(self).running_priority,
                self.highest_pending_priority == old(self).highest_pending_priority,
                self.highest_pending_intid == old(self).highest_pending_intid,
            decreases 4 - byte,
        {
            self.private_interrupts[base + byte].priority = ((value >> (byte * 8)) & 0xFF) as u8;
            byte += 1;
        }
        proof {
            assert(self.private_interrupts@ =~= private_priority_written(
                old(self).private_interrupts@,
                base as int,
                value,
            ));
        }
    }

    /// Write GICR_ICFGR1: PPI trigger configuration.
    fn write_ppi_triggers(&mut self, value: u32)
        ensures
            final(self).private_interrupts@ == ppi_trigger_written(
                old(self).private_interrupts@,
                value,
            ),
            final(self).same_registers(*old(self)),
            final(self).active_priorities@ == old(self).active_priorities@,
            final(self).running_priority == old(self).running_priority,
            final(self).highest_pending_priority == old(self).highest_pending_priority,
            final(self).highest_pending_intid == old(self).highest_pending_intid,
    {
        let mut i: usize = 0;
        while i < NUM_PPI
            invariant
                i <= 16,
                forall|j: int|
                    0 <= j < 32 ==> #[trigger] self.private_interrupts@[j] == if 16 <= j < 16 + i {
                        InterruptConfig {
                            trigger: if bit_of(value, (2 * (j - 16) + 1) as u32) {
                                TriggerType::Edge
                            } else {
                                TriggerType::Level
                            },
                            ..old(self).private_interrupts@[j]
                        }
                    } else {
                        old(self).private_interrupts@[j]
                    },
                self.same_registers(*old(self)),
                self.active_priorities@ == old(self).active_priorities@,
                self.running_priority == old(self).running_priority,
                self.highest_pending_priority == old(self).highest_pending_priority,
                self.highest_pending_intid == old(self).highest_pending_intid,
            decreases 16 - i,
        {
            proof {
                lemma_bit_test(value, (i * 2 + 1) as u32);
            }
            let edge = (value >> (i * 2 + 1)) & 1 != 0;
            self.private_interrupts[NUM_SGI + i].trigger = if edge {
                TriggerType::Edge
            } else {
                TriggerType::Level
            };
            i += 1;
        }
        proof {
            assert(self.private_interrupts@ =~= ppi_trigger_written(
                old(self).private_interrupts@,
                value,
            ));
        }
    }
}

impl Gic {
    /// `self` is `o` after writing `value` to redistributor register
    /// `offset` of CPU `cpu_id`: nothing happens for a missing CPU;
    /// otherwise that CPU's wake bit or private interrupts change and every
    /// CPU re-selects its highest pending interrupt.
    pub open spec fn redist_written(&self, o: &Gic, cpu_id: usize, offset: u64, value: u32) -> bool {
        &&& cpu_id >= o.cpu_table().len() ==> *self == *o
        &&& cpu_id < o.cpu_table().len() ==> {
            let oc = o.cpu_table()[cpu_id as int];
            &&& self.same_distributor(o)
            &&& self.spi_table() == o.spi_table()
            &&& self.synced()
            &&& self.cpu_table().len() == o.cpu_table().len()
            &&& self.cpu_table()[cpu_id as int].changed_from(
                CpuInterface {
                    waker_processor_sleep: if offset == 0x14 {
                        bit_of(value, 1)
                    } else {
                        oc.waker_processor_sleep
                    },
                    ..oc
                },
                redist_private(oc.private_interrupts@, offset, value),
                oc.active_priorities@,
                oc.running_priority,
                o.spi_table(),
            )
            &&& forall|i: int|
                0 <= i < self.cpu_table().len() && i != cpu_id ==> (
                #[trigger] self.cpu_table()[i]).refreshed_from(o.cpu_table()[i], o.spi_table())
        }
    }

    /// Write redistributor register for a CPU.
    pub fn write_redist(&mut self, cpu_id: usize, offset: u64, value: u32)
        requires
            old(self).wf(),
        ensures
            final(self).wf(),
            final(self).shaped(),
            final(self).gic_config() == old(self).gic_config(),
            final(self).redist_written(old(self), cpu_id, offset, value),
    {
        if cpu_id >= self.cpu_interfaces.len() {
            return;
        }
        if offset == 0x0014 {
            // GICR_WAKER
            proof {
                lemma_bit_test(value, 1);
            }
            self.cpu_interfaces[cpu_id].waker_processor_sleep = (value >> 1) & 1 != 0;
        } else if offset == 0x10080 {
            // GICR_IGROUPR0
            self.cpu_interfaces[cpu_id].write_private_flags(value, FlagWrite::Group);
        } else if offset == 0x10100 {
            // GICR_ISENABLER0
            self.cpu_interfaces[cpu_id].write_private_flags(value, FlagWrite::SetEnable);
        } else if offset == 0x10180 {
            // GICR_ICENABLER0
            self.cpu_interfaces[cpu_id].write_private_flags(value, FlagWrite::ClearEnable);
        } else if offset == 0x10200 {
            // GICR_ISPENDR0
            self.cpu_interfaces[cpu_id].write_private_flags(value, FlagWrite::SetPending);
        } else if offset == 0x10280 {
            // GICR_ICPENDR0
            self.cpu_interfaces[cpu_id].write_private_flags(value, FlagWrite::ClearPending);
        } else if offset == 0x10380 {
            // GICR_ICACTIVER0
            self.cpu_interfaces[cpu_id].write_private_flags(value, FlagWrite::ClearActive);
        } else if 0x10400 <= offset && offset <= 0x1041C {
            // GICR_IPRIORITYR0-7
            let base = ((offset - 0x10400) / 4) as usize * 4;
            self.cpu_interfaces[cpu_id].write_private_priorities(base, value);
        } else if offset == 0x10C04 {
            // GICR_ICFGR1: PPI trigger config
            self.cpu_interfaces[cpu_id].write_ppi_triggers(value);
        }
        self.update_all_cpus();
        proof {
            lemma_synced_wf(*self);
        }
    }
}

// =============================================================================
// Laws
// =============================================================================

/// A CPU interface whose highest-pending fields are up to date signals an
/// interrupt exactly when a group is enabled and some enabled, pending,
/// unmasked interrupt routed to it has a priority higher (numerically lower)
/// than the running priority.
pub proof fn lemma_signal_iff_eligible(c: CpuInterface, spis: Seq<InterruptConfig>)
    requires
        c.pending_selected(spis),
        spis.len() <= MAX_SPI,
    ensures
        c.signals() <==> ((c.enable_grp0 || c.enable_grp1 || c.enable_grp1_ns) && exists|i: int|
            #[trigger] c.eligible(spis, i) && c.config_of(spis, i).priority < c.running_priority),
{
    let n = 32 + spis.len() as int;
    if exists|i: int| #[trigger] c.eligible(spis, i) && c.config_of(spis, i).priority
        < c.running_priority {
        let i = choose|i: int|
            #[trigger] c.eligible(spis, i) && c.config_of(spis, i).priority < c.running_priority;
        assert(0 <= i < n);
        assert(c.highest_pending_intid != INTID_SPURIOUS || !(c.highest_pending_priority == 0xFF
            && forall|j: int| 0 <= j < n ==> !#[trigger] c.eligible(spis, j)));
    }
    if c.signals() {
        let id = c.highest_pending_intid as int;
        assert(c.eligible(spis, id));
    }
}

/// Writing a priority register and reading it back gives the written word,
/// when all four interrupt IDs it covers are SPIs of the table.
pub proof fn lemma_priority_write_read(o: &Gic, g: &Gic, offset: u64, value: u32, r: u32)
    requires
        g.dist_written(o, offset, value),
        0x400 <= offset <= 0x7F8,
        32 <= (offset - 0x400) / 4 * 4,
        (offset - 0x400) / 4 * 4 + 4 <= 32 + o.spi_table().len(),
        g.dist_reads(offset, r),
    ensures
        r == value,
{
    let base = (offset - 0x400) / 4 * 4;
    assert forall|k: u32| k < 4 implies lane_of(r, k) == lane_of(value, k) by {
        assert(lane_of(r, k) == spi_priority(g.spi_table(), base + k));
        assert(value >> (k * 8) & 0xFF < 256) by (bit_vector);
    }
    lemma_lanes_equal(r, value);
}

/// Setting enable bits and reading the enable register back shows an SPI
/// enabled exactly when it was enabled before or its bit was written.
pub proof fn lemma_enable_write_read(o: &Gic, g: &Gic, offset: u64, value: u32, r: u32, b: u32)
    requires
        g.dist_written(o, offset, value),
        0x100 <= offset <= 0x17C,
        g.dist_reads(offset, r),
        b < 32,
    ensures
        bit_of(r, b) == (spi_flag(o.spi_table(), (offset - 0x100) / 4 * 32 + b, FlagField::Enabled)
            || (bit_of(value, b) && 32 <= (offset - 0x100) / 4 * 32 + b < 32
            + o.spi_table().len())),
{
    let base = (offset - 0x100) / 4 * 32;
    assert(bit_of(r, b) == spi_flag(g.spi_table(), base + b, FlagField::Enabled));
    if 32 <= base + b < 32 + o.spi_table().len() {
        let j = base + b - 32;
        assert(g.spi_table()[j] == flag_written(o.spi_table()[j], FlagWrite::SetEnable, bit_of(value, b)));
    }
}

} // verus!
