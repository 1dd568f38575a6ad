//! A serial module: disabled until it is enabled, once.

use super::node::{Configurable, Node, Stage};
use super::uart_node::NodeConfig;
use super::{enable_uart_module, module_enable_ops};
use crate::reg::RegOp;
use core::marker::PhantomData;
use vstd::prelude::*;

verus! {

/// Identity of a module among those of its kind.
pub trait ModuleId {
    fn get_module_id() -> u32;
}

/// The register block of the first serial module.
#[derive(Clone, Copy, Debug, PartialEq, Eq, Structural)]
pub struct Asclin0;

impl ModuleId for Asclin0 {
    fn get_module_id() -> (id: u32)
        ensures
            id == 0,
    {
        0
    }
}

/// The module is disabled (type state).
pub struct Disabled;

/// The module is enabled (type state).
pub struct Enabled;

/// A serial module in state `State`.
pub struct Module<Reg, State> {
    _phantom: PhantomData<(Reg, State)>,
}

impl<Reg> Module<Reg, Disabled> {
    /// A disabled module.
    pub fn new() -> Self {
        Self { _phantom: PhantomData }
    }
}

impl Module<Asclin0, Disabled> {
    /// Enables the module. The disabled module is used up: the sequence
    /// cannot be issued twice.
    pub fn enable(self, ops: &mut Vec<RegOp>) -> (enabled: Module<Asclin0, Enabled>)
        ensures
            final(ops)@ == old(ops)@ + module_enable_ops(),
    {
        enable_uart_module(ops);
        Module::<Asclin0, Enabled> { _phantom: PhantomData }
    }
}

impl Module<Asclin0, Enabled> {
    /// A node of the module, about to be configured with `config`.
    pub fn take_node(&self, config: NodeConfig) -> (node: Node<Asclin0, Configurable>)
        requires
            config.supported(),
        ensures
            node.config() == config,
            node.stage() == Stage::Start,
    {
        Node::new(config)
    }
}

} // verus!
