//! The stack profiles a network runs with and the parameters each fixes.
use vstd::prelude::*;

verus! {

/// The security level of NWK frames.
#[derive(Clone, Copy, Debug, PartialEq, Eq, Structural)]
pub enum SecurityLevel {
    Unsecured,
    Mic32,
    Mic64,
    Mic128,
    Enc,
    EncMic32,
    EncMic64,
    EncMic128,
}

impl SecurityLevel {
    /// The length of the integrity code that the level adds.
    pub open spec fn spec_mic_length(self) -> usize {
        match self {
            SecurityLevel::Unsecured | SecurityLevel::Enc => 0,
            SecurityLevel::Mic32 | SecurityLevel::EncMic32 => 4,
            SecurityLevel::Mic64 | SecurityLevel::EncMic64 => 8,
            SecurityLevel::Mic128 | SecurityLevel::EncMic128 => 16,
        }
    }

    pub fn mic_length(&self) -> (r: usize)
        ensures
            r == self.spec_mic_length(),
    {
        match self {
            SecurityLevel::Unsecured | SecurityLevel::Enc => 0,
            SecurityLevel::Mic32 | SecurityLevel::EncMic32 => 4,
            SecurityLevel::Mic64 | SecurityLevel::EncMic64 => 8,
            SecurityLevel::Mic128 | SecurityLevel::EncMic128 => 16,
        }
    }
}

/// The stack profile announced in beacons.
#[derive(Clone, Copy, Debug, PartialEq, Eq, Structural)]
pub enum StackProfile {
    Zigbee,
    ZigbeePro,
}

impl Default for StackProfile {
    fn default() -> (r: Self)
        ensures
            r == StackProfile::Zigbee,
    {
        StackProfile::Zigbee
    }
}

/// How network addresses are given out.
#[derive(Copy, Clone, Debug, PartialEq, Eq, Structural)]
pub enum AddrAllocMethod {
    Distributed,
    Stochastic,
}

impl Default for AddrAllocMethod {
    fn default() -> (r: Self)
        ensures
            r == AddrAllocMethod::Stochastic,
    {
        AddrAllocMethod::Stochastic
    }
}

/// The network parameters a stack profile fixes. Durations are in milliseconds.
#[derive(Clone, Copy, Debug, PartialEq, Eq, Structural)]
pub struct StackProfileParams {
    pub nwk_transaction_persistence_time: u16,
    pub nwk_report_constant_cost: bool,
    pub nwk_security_level: SecurityLevel,
    pub nwk_addr_alloc: AddrAllocMethod,
    pub nwk_use_tree_routing: bool,
    pub nwk_max_depth: u8,
    pub nwk_max_children: u8,
    pub nwk_max_routers: u8,
    pub nwk_sym_link: bool,
    pub nwk_unique_addr: bool,
    pub nwk_broadcast_delivery_time: u32,
    pub nwk_passive_ack_timeout: u32,
    pub nwk_max_broadcast_retries: u8,
    pub nwk_secure_all_frames: bool,
    pub config_nwk_leave_remove_children: bool,
    pub aps_security_timeout_period_ms: u64,
}

pub open spec fn spec_zigbee_stack_profile() -> StackProfileParams {
    StackProfileParams {
        nwk_transaction_persistence_time: 0x01f4,
        nwk_report_constant_cost: false,
        nwk_security_level: SecurityLevel::EncMic32,
        nwk_addr_alloc: AddrAllocMethod::Distributed,
        nwk_use_tree_routing: true,
        nwk_max_depth: 5,
        nwk_max_children: 20,
        nwk_max_routers: 6,
        nwk_sym_link: false,
        nwk_unique_addr: true,
        nwk_broadcast_delivery_time: 9,
        nwk_passive_ack_timeout: 1,
        nwk_max_broadcast_retries: 2,
        nwk_secure_all_frames: true,
        config_nwk_leave_remove_children: false,
        aps_security_timeout_period_ms: 700,
    }
}

pub open spec fn spec_zigbee_pro_stack_profile() -> StackProfileParams {
    StackProfileParams {
        nwk_transaction_persistence_time: 0x01f4,
        nwk_report_constant_cost: false,
        nwk_security_level: SecurityLevel::EncMic32,
        nwk_addr_alloc: AddrAllocMethod::Stochastic,
        nwk_use_tree_routing: false,
        nwk_max_depth: 15,
        nwk_max_children: 64,
        nwk_max_routers: 0,
        nwk_sym_link: true,
        nwk_unique_addr: false,
        nwk_broadcast_delivery_time: 9,
        nwk_passive_ack_timeout: 1,
        nwk_max_broadcast_retries: 2,
        nwk_secure_all_frames: true,
        config_nwk_leave_remove_children: false,
        aps_security_timeout_period_ms: 1700,
    }
}

impl StackProfile {
    pub open spec fn spec_params(self) -> StackProfileParams {
        match self {
            StackProfile::Zigbee => spec_zigbee_stack_profile(),
            StackProfile::ZigbeePro => spec_zigbee_pro_stack_profile(),
        }
    }

    pub fn get_params(&self) -> (r: StackProfileParams)
        ensures
            r == self.spec_params(),
    {
        match self {
            StackProfile::Zigbee => StackProfileParams {
                nwk_transaction_persistence_time: 0x01f4,
                nwk_report_constant_cost: false,
                nwk_security_level: SecurityLevel::EncMic32,
                nwk_addr_alloc: AddrAllocMethod::Distributed,
                nwk_use_tree_routing: true,
                nwk_max_depth: 5,
                nwk_max_children: 20,
                nwk_max_routers: 6,
                nwk_sym_link: false,
                nwk_unique_addr: true,
                nwk_broadcast_delivery_time: 9,
                nwk_passive_ack_timeout: 1,
                nwk_max_broadcast_retries: 2,
                nwk_secure_all_frames: true,
                config_nwk_leave_remove_children: false,
                aps_security_timeout_period_ms: 700,
            },
            StackProfile::ZigbeePro => StackProfileParams {
                nwk_transaction_persistence_time: 0x01f4,
                nwk_report_constant_cost: false,
                nwk_security_level: SecurityLevel::EncMic32,
                nwk_addr_alloc: AddrAllocMethod::Stochastic,
                nwk_use_tree_routing: false,
                nwk_max_depth: 15,
                nwk_max_children: 64,
                nwk_max_routers: 0,
                nwk_sym_link: true,
                nwk_unique_addr: false,
                nwk_broadcast_delivery_time: 9,
                nwk_passive_ack_timeout: 1,
                nwk_max_broadcast_retries: 2,
                nwk_secure_all_frames: true,
                config_nwk_leave_remove_children: false,
                aps_security_timeout_period_ms: 1700,
            },
        }
    }

    /// The value that stands for the profile in beacons.
    pub open spec fn spec_to_u8(self) -> u8 {
        match self {
            StackProfile::Zigbee => 0x01,
            StackProfile::ZigbeePro => 0x02,
        }
    }

    pub fn to_u8(&self) -> (r: u8)
        ensures
            r == self.spec_to_u8(),
    {
        match self {
            StackProfile::Zigbee => 0x01,
            StackProfile::ZigbeePro => 0x02,
        }
    }

    pub fn from_u8(v: u8) -> (r: Option<StackProfile>)
        ensures
            r == (if v == 1 {
                Some(StackProfile::Zigbee)
            } else if v == 2 {
                Some(StackProfile::ZigbeePro)
            } else {
                None::<StackProfile>
            }),
    {
        if v == 1 {
            Some(StackProfile::Zigbee)
        } else if v == 2 {
            Some(StackProfile::ZigbeePro)
        } else {
            None
        }
    }
}

} // verus!
