//! Checks on the render interfaces that the host hands to the core.
use vstd::prelude::*;
use crate::context::InterfaceFunction;
use crate::negotiation::VulkanCall;

verus! {

/// Failures of the host's Vulkan render interface.
#[derive(Clone, Copy, Debug, PartialEq, Eq, Structural)]
pub enum VulkanRenderInterfaceError {
    NullInterfaceFunction(InterfaceFunction),
    NullHandle,
    NullInstance,
    NullPhysicalDevice,
    NullDevice,
    NullQueue,
}

/// Which functions of `retro_hw_render_interface_vulkan` the host filled in.
#[derive(Clone, Copy, Debug, PartialEq, Eq, Structural)]
pub struct InterfaceFunctions {
    pub set_image: bool,
    pub get_sync_index: bool,
    pub get_sync_index_mask: bool,
    pub wait_sync_index: bool,
    pub lock_queue: bool,
    pub unlock_queue: bool,
    pub set_command_buffers: bool,
    pub set_signal_semaphore: bool,
}

/// The host's Vulkan render interface as received: handles as integers (the
/// null handle is zero) and which functions are present.
#[derive(Clone, Copy, Debug, PartialEq, Eq, Structural)]
pub struct RawRenderInterface {
    pub handle: u64,
    pub instance: u64,
    pub gpu: u64,
    pub device: u64,
    pub queue: u64,
    pub queue_index: u32,
    pub functions: InterfaceFunctions,
}

/// A checked Vulkan render interface: no handle is null and every function
/// the core calls is present.
#[derive(Clone, Copy, Debug, PartialEq, Eq, Structural)]
pub struct VulkanRenderInterface {
    pub handle: u64,
    pub instance: u64,
    pub gpu: u64,
    pub device: u64,
    pub queue: u64,
    pub queue_index: u32,
}

/// The outcome of checking a received interface: the handles in order, then
/// the functions in the order the core looks them up.
pub open spec fn interface_outcome(raw: RawRenderInterface) -> Result<(), VulkanRenderInterfaceError> {
    if raw.handle == 0 {
        Err(VulkanRenderInterfaceError::NullHandle)
    } else if raw.instance == 0 {
        Err(VulkanRenderInterfaceError::NullInstance)
    } else if raw.gpu == 0 {
        Err(VulkanRenderInterfaceError::NullPhysicalDevice)
    } else if raw.device == 0 {
        Err(VulkanRenderInterfaceError::NullDevice)
    } else if raw.queue == 0 {
        Err(VulkanRenderInterfaceError::NullQueue)
    } else if !raw.functions.get_sync_index {
        Err(VulkanRenderInterfaceError::NullInterfaceFunction(InterfaceFunction::GetSyncIndex))
    } else if !raw.functions.set_image {
        Err(VulkanRenderInterfaceError::NullInterfaceFunction(InterfaceFunction::SetImage))
    } else if !raw.functions.get_sync_index_mask {
        Err(VulkanRenderInterfaceError::NullInterfaceFunction(InterfaceFunction::GetSyncIndexMask))
    } else if !raw.functions.wait_sync_index {
        Err(VulkanRenderInterfaceError::NullInterfaceFunction(InterfaceFunction::WaitSyncIndex))
    } else if !raw.functions.lock_queue {
        Err(VulkanRenderInterfaceError::NullInterfaceFunction(InterfaceFunction::LockQueue))
    } else if !raw.functions.unlock_queue {
        Err(VulkanRenderInterfaceError::NullInterfaceFunction(InterfaceFunction::UnlockQueue))
    } else if !raw.functions.set_command_buffers {
        Err(VulkanRenderInterfaceError::NullInterfaceFunction(InterfaceFunction::SetCommandBuffers))
    } else if !raw.functions.set_signal_semaphore {
        Err(VulkanRenderInterfaceError::NullInterfaceFunction(InterfaceFunction::SetSignalSemaphore))
    } else {
        Ok(())
    }
}

impl VulkanRenderInterface {
    /// No handle is null.
    pub open spec fn wf(self) -> bool {
        self.handle != 0 && self.instance != 0 && self.gpu != 0 && self.device != 0 && self.queue != 0
    }

    /// Checks a received interface.
    pub fn new(raw: &RawRenderInterface) -> (r: Result<VulkanRenderInterface, VulkanRenderInterfaceError>)
        ensures
            match interface_outcome(*raw) {
                Err(e) => r == Err::<VulkanRenderInterface, VulkanRenderInterfaceError>(e),
                Ok(_) => r == Ok::<VulkanRenderInterface, VulkanRenderInterfaceError>(VulkanRenderInterface {
                    handle: raw.handle,
                    instance: raw.instance,
                    gpu: raw.gpu,
                    device: raw.device,
                    queue: raw.queue,
                    queue_index: raw.queue_index,
                }) && r.unwrap().wf(),
            },
    {
        if raw.handle == 0 {
            return Err(VulkanRenderInterfaceError::NullHandle);
        }
        if raw.instance == 0 {
            return Err(VulkanRenderInterfaceError::NullInstance);
        }
        if raw.gpu == 0 {
            return Err(VulkanRenderInterfaceError::NullPhysicalDevice);
        }
        if raw.device == 0 {
            return Err(VulkanRenderInterfaceError::NullDevice);
        }
        if raw.queue == 0 {
            return Err(VulkanRenderInterfaceError::NullQueue);
        }
        let f = raw.functions;
        if !f.get_sync_index {
            return Err(VulkanRenderInterfaceError::NullInterfaceFunction(InterfaceFunction::GetSyncIndex));
        }
        if !f.set_image {
            return Err(VulkanRenderInterfaceError::NullInterfaceFunction(InterfaceFunction::SetImage));
        }
        if !f.get_sync_index_mask {
            return Err(VulkanRenderInterfaceError::NullInterfaceFunction(InterfaceFunction::GetSyncIndexMask));
        }
        if !f.wait_sync_index {
            return Err(VulkanRenderInterfaceError::NullInterfaceFunction(InterfaceFunction::WaitSyncIndex));
        }
        if !f.lock_queue {
            return Err(VulkanRenderInterfaceError::NullInterfaceFunction(InterfaceFunction::LockQueue));
        }
        if !f.unlock_queue {
            return Err(VulkanRenderInterfaceError::NullInterfaceFunction(InterfaceFunction::UnlockQueue));
        }
        if !f.set_command_buffers {
            return Err(VulkanRenderInterfaceError::NullInterfaceFunction(InterfaceFunction::SetCommandBuffers));
        }
        if !f.set_signal_semaphore {
            return Err(VulkanRenderInterfaceError::NullInterfaceFunction(InterfaceFunction::SetSignalSemaphore));
        }
        Ok(VulkanRenderInterface {
            handle: raw.handle,
            instance: raw.instance,
            gpu: raw.gpu,
            device: raw.device,
            queue: raw.queue,
            queue_index: raw.queue_index,
        })
    }

    /// The opaque handle the host's functions take.
    pub fn handle(&self) -> (r: u64)
        ensures
            r == self.handle,
    {
        self.handle
    }

    pub fn instance(&self) -> (r: u64)
        ensures
            r == self.instance,
    {
        self.instance
    }

    pub fn device(&self) -> (r: u64)
        ensures
            r == self.device,
    {
        self.device
    }

    pub fn gpu(&self) -> (r: u64)
        ensures
            r == self.gpu,
    {
        self.gpu
    }

    pub fn queue_index(&self) -> (r: u32)
        ensures
            r == self.queue_index,
    {
        self.queue_index
    }

    pub fn queue(&self) -> (r: u64)
        ensures
            r == self.queue,
    {
        self.queue
    }
}

/// `RETRO_HW_RENDER_INTERFACE_VULKAN`.
pub const INTERFACE_TYPE_VULKAN: u32 = 0;

/// Failures while obtaining the Vulkan render interface from the host.
#[derive(Clone, Copy, Debug, PartialEq, Eq, Structural)]
pub enum VulkanRenderStateError {
    UnknownEnvironmentCallback,
    RenderInterfaceWasNull,
    FailedToGetRenderInterface,
    WrongInterfaceType(u32),
    WrongRenderBackendType,
    VulkanError(VulkanCall, i32),
}

/// The host's answer to `RETRO_ENVIRONMENT_GET_HW_RENDER_INTERFACE`.
#[derive(Clone, Copy, Debug, PartialEq, Eq, Structural)]
pub enum InterfaceReply {
    /// The environment call could not be made.
    Unavailable,
    /// The host does not know the command.
    Unrecognized,
    /// The host answered with a null interface.
    Null,
    /// The host answered with an interface of this type.
    Interface(u32),
}

/// Checks the host's answer to the render interface query.
pub fn check_interface_reply(reply: InterfaceReply) -> (r: Result<(), VulkanRenderStateError>)
    ensures
        r == match reply {
            InterfaceReply::Unavailable => Err(VulkanRenderStateError::FailedToGetRenderInterface),
            InterfaceReply::Unrecognized => Err(VulkanRenderStateError::UnknownEnvironmentCallback),
            InterfaceReply::Null => Err(VulkanRenderStateError::RenderInterfaceWasNull),
            InterfaceReply::Interface(t) => if t == INTERFACE_TYPE_VULKAN {
                Ok(())
            } else {
                Err(VulkanRenderStateError::WrongInterfaceType(t))
            },
        },
{
    match reply {
        InterfaceReply::Unavailable => Err(VulkanRenderStateError::FailedToGetRenderInterface),
        InterfaceReply::Unrecognized => Err(VulkanRenderStateError::UnknownEnvironmentCallback),
        InterfaceReply::Null => Err(VulkanRenderStateError::RenderInterfaceWasNull),
        InterfaceReply::Interface(t) => if t == INTERFACE_TYPE_VULKAN {
            Ok(())
        } else {
            Err(VulkanRenderStateError::WrongInterfaceType(t))
        },
    }
}

/// Failures while preparing the OpenGL render state.
#[derive(Clone, Copy, Debug, PartialEq, Eq, Structural)]
pub enum OpenGlRenderStateError {
    GetProcAddressNotInitialized,
    FailedToCreateDescriptors,
}

/// The OpenGL path needs the host's proc-address resolver.
pub fn check_proc_address(has_get_proc_address: bool) -> (r: Result<(), OpenGlRenderStateError>)
    ensures
        r == if has_get_proc_address {
            Ok::<(), OpenGlRenderStateError>(())
        } else {
            Err(OpenGlRenderStateError::GetProcAddressNotInitialized)
        },
{
    if has_get_proc_address {
        Ok(())
    } else {
        Err(OpenGlRenderStateError::GetProcAddressNotInitialized)
    }
}

} // verus!
