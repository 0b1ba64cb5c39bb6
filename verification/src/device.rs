use crate::config::Config;
use crate::error::StreamError;
use vstd::prelude::*;

verus! {

/// One control call on the opened device.
#[derive(Debug, Clone, Copy, PartialEq, Eq, Structural)]
pub enum ControlStep {
    /// Detach the kernel driver from this interface.
    DetachKernelDriver(u8),
    /// Claim this interface.
    ClaimInterface(u8),
    /// Select, on this interface, this alternate setting.
    SetAlternateSetting(u8, u8),
}

/// The device answers to the configured vendor and product id. A device whose
/// descriptor could not be read matches nothing.
pub open spec fn is_target(cfg: Config, ids: Option<(u16, u16)>) -> bool {
    ids == Some((cfg.vid, cfg.pid))
}

/// The two control calls of the bus recovery: streaming off, then on.
pub open spec fn recovery_steps(cfg: Config) -> Seq<ControlStep> {
    seq![
        ControlStep::SetAlternateSetting(cfg.iface, cfg.set_disable),
        ControlStep::SetAlternateSetting(cfg.iface, cfg.set_enabled),
    ]
}

/// The control calls that prepare an opened device for streaming: the kernel
/// driver is detached where one is active, the interface is claimed, and
/// streaming is switched off and on.
pub open spec fn open_steps(cfg: Config, kernel_driver_active: bool) -> Seq<ControlStep> {
    let claim = seq![ControlStep::ClaimInterface(cfg.iface)] + recovery_steps(cfg);
    if kernel_driver_active {
        seq![ControlStep::DetachKernelDriver(cfg.iface)] + claim
    } else {
        claim
    }
}

/// Picks the device to operate on: the first of the enumerated devices that
/// carries the configured vendor and product id.
pub fn select_device(found: &Vec<Option<(u16, u16)>>, cfg: &Config) -> (r: Result<
    usize,
    StreamError,
>)
    ensures
        match r {
            Ok(pick) => {
                &&& pick < found@.len()
                &&& is_target(*cfg, found@[pick as int])
                &&& forall|j: int| 0 <= j < pick ==> !is_target(*cfg, #[trigger] found@[j])
            },
            Err(e) => {
                &&& e == StreamError::DeviceNotFound
                &&& forall|j: int| 0 <= j < found@.len() ==> !is_target(*cfg, #[trigger] found@[j])
            },
        },
{
    let mut i: usize = 0;
    while i < found.len()
        invariant
            i <= found@.len(),
            forall|j: int| 0 <= j < i ==> !is_target(*cfg, #[trigger] found@[j]),
        decreases found@.len() - i,
    {
        match found[i] {
            Some((vid, pid)) => {
                if vid == cfg.vid && pid == cfg.pid {
                    return Ok(i);
                }
            },
            None => {},
        }
        i += 1;
    }
    Err(StreamError::DeviceNotFound)
}

/// The control calls of the bus recovery, in order.
pub fn recovery_plan(cfg: &Config) -> (r: Vec<ControlStep>)
    ensures
        r@ == recovery_steps(*cfg),
{
    let mut plan: Vec<ControlStep> = Vec::new();
    plan.push(ControlStep::SetAlternateSetting(cfg.iface, cfg.set_disable));
    plan.push(ControlStep::SetAlternateSetting(cfg.iface, cfg.set_enabled));
    assert(plan@ =~= recovery_steps(*cfg));
    plan
}

/// The control calls that prepare an opened device for streaming, in order.
pub fn open_plan(cfg: &Config, kernel_driver_active: bool) -> (r: Vec<ControlStep>)
    ensures
        r@ == open_steps(*cfg, kernel_driver_active),
{
    let mut plan: Vec<ControlStep> = Vec::new();
    if kernel_driver_active {
        plan.push(ControlStep::DetachKernelDriver(cfg.iface));
    }
    plan.push(ControlStep::ClaimInterface(cfg.iface));
    plan.push(ControlStep::SetAlternateSetting(cfg.iface, cfg.set_disable));
    plan.push(ControlStep::SetAlternateSetting(cfg.iface, cfg.set_enabled));
    assert(plan@ =~= open_steps(*cfg, kernel_driver_active));
    plan
}

} // verus!
