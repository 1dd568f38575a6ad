//! Service request nodes, and the software interrupts: the general purpose
//! service requests.

use crate::reg::{field, put_field, RegOp};
use vstd::prelude::*;

verus! {

/// Address of the service request node of request 0 of group 0.
pub const GPSR_BASE: u32 = 0xF003_8990;

/// Distance between the nodes of two consecutive groups.
pub const GROUP_STRIDE: u32 = 0x20;

/// Distance between the nodes of two consecutive requests of a group.
pub const REQUEST_STRIDE: u32 = 0x4;

/// Number of groups.
pub const GROUPS: usize = 3;

/// Number of requests of a group.
pub const REQUESTS: usize = 8;

/// Service request priority number.
pub const SRPN: u32 = 0x0000_00FF;

/// Service request enable.
pub const SRE: u32 = 0x0000_0400;

/// Type of service.
pub const TOS: u32 = 0x0000_3800;

/// Bit position of the type of service.
pub const TOS_SHIFT: u32 = 11;

/// Request clear bit.
pub const CLRR: u32 = 0x0200_0000;

/// Request set bit.
pub const SETR: u32 = 0x0400_0000;

/// Address of the service request node of request `req_nr` of group
/// `group_nr`.
pub open spec fn node_addr(group_nr: int, req_nr: int) -> u32 {
    (GPSR_BASE + GROUP_STRIDE * group_nr + REQUEST_STRIDE * req_nr) as u32
}

/// One software interrupt.
#[derive(Clone, Copy, Debug)]
pub struct SoftwareInterruptNode {
    group_nr: usize,
    req_nr: usize,
    prio: u8,
    tos: u8,
}

impl SoftwareInterruptNode {
    /// Group of the request.
    pub closed spec fn group(&self) -> usize {
        self.group_nr
    }

    /// Number of the request within its group.
    pub closed spec fn request(&self) -> usize {
        self.req_nr
    }

    /// Priority of the request.
    pub closed spec fn priority(&self) -> u8 {
        self.prio
    }

    /// Service target of the request.
    pub closed spec fn service(&self) -> u8 {
        self.tos
    }

    /// The request exists: its group and its number are in range.
    pub open spec fn exists_on_chip(&self) -> bool {
        self.group() < GROUPS && self.request() < REQUESTS
    }

    /// Address of the service request node.
    pub open spec fn addr(&self) -> u32 {
        node_addr(self.group() as int, self.request() as int)
    }

    /// The write that changes the bits under `mask` of the node to those of
    /// `value`.
    pub open spec fn modify(&self, value: u32, mask: u32) -> RegOp {
        RegOp::Modify { addr: self.addr(), value, mask }
    }

    pub fn new(group_nr: usize, req_nr: usize, prio: u8, tos: u8) -> (node: Self)
        ensures
            node.group() == group_nr,
            node.request() == req_nr,
            node.priority() == prio,
            node.service() == tos,
    {
        Self { group_nr, req_nr, prio, tos }
    }

    /// Whether the request exists.
    pub fn is_on_chip(&self) -> (ok: bool)
        ensures
            ok == self.exists_on_chip(),
    {
        self.group_nr < GROUPS && self.req_nr < REQUESTS
    }

    fn modify_reg(&self, value: u32, mask: u32, ops: &mut Vec<RegOp>)
        requires
            self.exists_on_chip(),
        ensures
            final(ops)@ == old(ops)@.push(self.modify(value, mask)),
    {
        let addr: u32 = GPSR_BASE + GROUP_STRIDE * (self.group_nr as u32) + REQUEST_STRIDE * (
        self.req_nr as u32);
        ops.push(RegOp::Modify { addr, value, mask });
    }

    /// Programs priority and service target.
    pub fn init(&self, ops: &mut Vec<RegOp>)
        requires
            self.exists_on_chip(),
        ensures
            final(ops)@ == old(ops)@.push(
                self.modify(
                    field(self.priority() as u32, 0, SRPN) | field(
                        self.service() as u32,
                        TOS_SHIFT,
                        TOS,
                    ),
                    SRPN | TOS,
                ),
            ),
    {
        self.modify_reg(
            put_field(self.prio as u32, 0, SRPN) | put_field(self.tos as u32, TOS_SHIFT, TOS),
            SRPN | TOS,
            ops,
        )
    }

    /// Raises the request.
    pub fn set_request(&self, ops: &mut Vec<RegOp>)
        requires
            self.exists_on_chip(),
        ensures
            final(ops)@ == old(ops)@.push(self.modify(SETR, SETR)),
    {
        self.modify_reg(SETR, SETR, ops);
    }

    /// Clears the request.
    pub fn clear_request(&self, ops: &mut Vec<RegOp>)
        requires
            self.exists_on_chip(),
        ensures
            final(ops)@ == old(ops)@.push(self.modify(CLRR, CLRR)),
    {
        self.modify_reg(CLRR, CLRR, ops);
    }

    /// Enables the service of the request.
    pub fn enable(&self, ops: &mut Vec<RegOp>)
        requires
            self.exists_on_chip(),
        ensures
            final(ops)@ == old(ops)@.push(self.modify(SRE, SRE)),
    {
        self.modify_reg(SRE, SRE, ops);
    }

    /// Disables the service of the request.
    pub fn disable(&self, ops: &mut Vec<RegOp>)
        requires
            self.exists_on_chip(),
        ensures
            final(ops)@ == old(ops)@.push(self.modify(0, SRE)),
    {
        self.modify_reg(0, SRE, ops);
    }

    pub fn get_prio(&self) -> (prio: u8)
        ensures
            prio == self.priority(),
    {
        self.prio
    }
}

} // verus!
