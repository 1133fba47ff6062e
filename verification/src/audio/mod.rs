//! The virtual microphone and what is played into it.
pub mod playback;
pub mod virtual_device;

use crate::audio::virtual_device::{
    args_view, load_module_args, unload_module_args, CommandOutput, DeviceError, VirtualDevice,
};
use crate::text::{parse_u32, some_line_contains, trim};
use vstd::prelude::*;

verus! {

/// The virtual device used for playback. Its operations take the output of the
/// `pactl` runs they depend on and give the `pactl` arguments to run next.
pub struct AudioManager {
    device: VirtualDevice,
}

impl AudioManager {
    /// The device this manager holds.
    pub closed spec fn device(&self) -> VirtualDevice {
        self.device
    }

    /// A manager for the sink `device_name`, not yet created by this program.
    pub fn new(device_name: &str) -> (r: Self)
        ensures
            r.device().name() == device_name@,
            r.device().module() is None,
    {
        AudioManager { device: VirtualDevice::new(device_name) }
    }

    /// The `pactl` arguments that create the device, or `None` when the sink listing
    /// shows it already.
    pub fn ensure_device(&self, sinks_listing: &str) -> (r: Option<Vec<String>>)
        ensures
            some_line_contains(sinks_listing@, self.device().name()) ==> r is None,
            !some_line_contains(sinks_listing@, self.device().name()) ==> (r matches Some(args)
                && args_view(args@) == load_module_args(self.device().name())),
    {
        self.device.create(sinks_listing)
    }

    /// Takes in the result of the `pactl` run that `ensure_device` asked for (see
    /// `VirtualDevice::record_created`).
    pub fn device_created(&mut self, output: &CommandOutput) -> (r: Result<(), DeviceError>)
        ensures
            final(self).device().name() == old(self).device().name(),
            !output.success ==> (r matches Err(DeviceError::LoadModuleFailed(e)) && e@
                == output.stderr@ && final(self).device().module() == old(self).device().module()),
            output.success ==> (r is Ok && final(self).device().module() == parse_u32(
                trim(output.stdout@),
            )),
    {
        self.device.record_created(output)
    }

    /// Whether the sink listing shows the device.
    pub fn device_exists(&self, sinks_listing: &str) -> (r: bool)
        ensures
            r == some_line_contains(sinks_listing@, self.device().name()),
    {
        self.device.is_listed(sinks_listing)
    }

    /// The `pactl` arguments that remove the device, when this program created it.
    pub fn destroy_device(&mut self) -> (r: Option<Vec<String>>)
        ensures
            final(self).device().name() == old(self).device().name(),
            final(self).device().module() is None,
            match old(self).device().module() {
                Some(id) => r matches Some(args) && args_view(args@) == unload_module_args(id),
                None => r is None,
            },
    {
        self.device.destroy()
    }

    /// The sink name that playback is routed to.
    pub fn device_name(&self) -> (r: &str)
        ensures
            r@ == self.device().name(),
    {
        self.device.sink_name()
    }

    /// The source that records the device.
    pub fn monitor_source(&self) -> (r: String)
        ensures
            r@ == self.device().name() + ".monitor"@,
    {
        self.device.monitor_source()
    }
}

} // verus!
