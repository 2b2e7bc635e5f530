//! Choice of the compute device.
use vstd::prelude::*;

use candle_core::Device;

verus! {

#[verifier::external_type_specification]
#[verifier::external_body]
pub struct ExCudaDevice(candle_core::CudaDevice);

#[verifier::external_type_specification]
#[verifier::external_body]
pub struct ExMetalDevice(candle_core::MetalDevice);

#[verifier::external_type_specification]
pub struct ExDevice(candle_core::Device);

#[verifier::external_type_specification]
#[verifier::external_body]
pub struct ExCandleError(candle_core::Error);

/// Relies on `Device::new_cuda`: on success it holds a CUDA device.
pub assume_specification[ candle_core::Device::new_cuda ](ordinal: usize) -> (r: Result<
    Device,
    candle_core::Error,
>)
    ensures
        r is Ok ==> r->Ok_0 is Cuda,
;

/// Relies on `Device::new_metal`: on success it holds a Metal device.
pub assume_specification[ candle_core::Device::new_metal ](ordinal: usize) -> (r: Result<
    Device,
    candle_core::Error,
>)
    ensures
        r is Ok ==> r->Ok_0 is Metal,
;

/// The kinds of device that the selector chooses among.
#[derive(Clone, Copy, Debug, PartialEq, Eq, Structural)]
pub enum DeviceKind {
    Cpu,
    Cuda,
    Metal,
}

/// The selection policy: the general-purpose processor when it is preferred;
/// else the first available accelerator, CUDA before Metal; else the
/// general-purpose processor.
pub open spec fn device_choice(prefer_cpu: bool, cuda_available: bool, metal_available: bool) -> DeviceKind {
    if prefer_cpu {
        DeviceKind::Cpu
    } else if cuda_available {
        DeviceKind::Cuda
    } else if metal_available {
        DeviceKind::Metal
    } else {
        DeviceKind::Cpu
    }
}

/// Whether a candle device is of the given kind.
pub open spec fn device_is(d: Device, kind: DeviceKind) -> bool {
    match kind {
        DeviceKind::Cpu => d is Cpu,
        DeviceKind::Cuda => d is Cuda,
        DeviceKind::Metal => d is Metal,
    }
}

/// Picks the device kind from the preference and the results of the
/// availability probes.
pub fn select_device(prefer_cpu: bool, cuda_available: bool, metal_available: bool) -> (r:
    DeviceKind)
    ensures
        r == device_choice(prefer_cpu, cuda_available, metal_available),
{
    if prefer_cpu {
        DeviceKind::Cpu
    } else if cuda_available {
        DeviceKind::Cuda
    } else if metal_available {
        DeviceKind::Metal
    } else {
        DeviceKind::Cpu
    }
}

/// Preferring the general-purpose processor selects it, whatever accelerators
/// are present.
pub proof fn lemma_prefer_cpu_selects_cpu(cuda_available: bool, metal_available: bool)
    ensures
        device_choice(true, cuda_available, metal_available) == DeviceKind::Cpu,
{
}

/// Without the preference, an accelerator is selected whenever one is
/// available, and CUDA wins over Metal.
pub proof fn lemma_accelerator_when_available(cuda_available: bool, metal_available: bool)
    ensures
        cuda_available ==> device_choice(false, cuda_available, metal_available)
            == DeviceKind::Cuda,
        !cuda_available && metal_available ==> device_choice(
            false,
            cuda_available,
            metal_available,
        ) == DeviceKind::Metal,
        !cuda_available && !metal_available ==> device_choice(
            false,
            cuda_available,
            metal_available,
        ) == DeviceKind::Cpu,
{
}

/// Relies on `candle_core::utils::cuda_is_available`; nothing is promised of
/// its answer.
#[verifier::external_body]
fn probe_cuda() -> (r: bool) {
    candle_core::utils::cuda_is_available()
}

/// Relies on `candle_core::utils::metal_is_available`; nothing is promised of
/// its answer.
#[verifier::external_body]
fn probe_metal() -> (r: bool) {
    candle_core::utils::metal_is_available()
}

/// A device that was opened, with the kind it was chosen as.
pub struct SelectedDevice {
    pub kind: DeviceKind,
    pub device: Device,
}

impl SelectedDevice {
    pub open spec fn wf(&self) -> bool {
        device_is(self.device, self.kind)
    }

    /// Whether the device is of the kind recorded beside it.
    pub fn is_consistent(&self) -> (r: bool)
        ensures
            r == self.wf(),
    {
        match (&self.device, self.kind) {
            (Device::Cpu, DeviceKind::Cpu) => true,
            (Device::Cuda(_), DeviceKind::Cuda) => true,
            (Device::Metal(_), DeviceKind::Metal) => true,
            _ => false,
        }
    }

    /// Whether the general-purpose processor was chosen although
    /// acceleration was allowed, so that the caller may tell the user how
    /// to enable it.
    pub fn fell_back(&self, prefer_cpu: bool) -> (r: bool)
        ensures
            r == (!prefer_cpu && self.kind == DeviceKind::Cpu),
    {
        !prefer_cpu && self.kind == DeviceKind::Cpu
    }
}

/// Opens a device of the given kind (ordinal 0 for an accelerator).
pub fn open_device(kind: DeviceKind) -> (r: Result<SelectedDevice, candle_core::Error>)
    ensures
        kind == DeviceKind::Cpu ==> r is Ok,
        r matches Ok(d) ==> d.kind == kind && d.wf(),
{
    match kind {
        DeviceKind::Cpu => Ok(SelectedDevice { kind, device: Device::Cpu }),
        DeviceKind::Cuda => {
            let d = Device::new_cuda(0)?;
            Ok(SelectedDevice { kind, device: d })
        },
        DeviceKind::Metal => {
            let d = Device::new_metal(0)?;
            Ok(SelectedDevice { kind, device: d })
        },
    }
}

/// Chooses and opens the compute device. With `cpu` set, no probe runs and
/// the general-purpose processor is returned; otherwise the first available
/// accelerator is opened, and the general-purpose processor is the fallback
/// when none is available or the chosen one does not open. It never fails.
pub fn get_device(cpu: bool) -> (r: SelectedDevice)
    ensures
        r.wf(),
        cpu ==> r.kind == DeviceKind::Cpu,
        r.kind == DeviceKind::Cpu ==> r.device is Cpu,
{
    if cpu {
        return SelectedDevice { kind: DeviceKind::Cpu, device: Device::Cpu };
    }
    let cuda = probe_cuda();
    let metal = if cuda {
        false
    } else {
        probe_metal()
    };
    let kind = select_device(cpu, cuda, metal);
    match open_device(kind) {
        Ok(d) => d,
        Err(_) => SelectedDevice { kind: DeviceKind::Cpu, device: Device::Cpu },
    }
}

} // verus!
