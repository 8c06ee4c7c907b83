use ruffle_libretro::audio::{samples_per_frame, MAX_SAMPLES};
use ruffle_libretro::backends::{PropertiesFormat, RetroLogBackend, RetroNavigatorBackend};
use ruffle_libretro::context::InterfaceFunction;
use ruffle_libretro::input::{MouseButton, MouseInput, MouseState, WheelStep};
use ruffle_libretro::interface::{
    check_interface_reply, check_proc_address, InterfaceFunctions, InterfaceReply, OpenGlRenderStateError,
    RawRenderInterface, VulkanRenderInterface, VulkanRenderInterfaceError, VulkanRenderStateError,
};

#[test]
fn samples_per_frame_values() {
    assert_eq!(samples_per_frame(44100, 60), 1470);
    assert_eq!(samples_per_frame(48000, 24), 4000);
    assert_eq!(samples_per_frame(44100, 1), MAX_SAMPLES);
    assert_eq!(samples_per_frame(8191, 1), MAX_SAMPLES);
    assert_eq!(samples_per_frame(0, 30), 0);
}

fn input(dx: i16, dy: i16) -> MouseInput {
    MouseInput { dx, dy, left: false, right: false, middle: false, wheel_up: false, wheel_down: false }
}

#[test]
fn mouse_moves_within_screen() {
    let m = MouseState::default().from_context(&input(10, 20), 550, 400);
    assert_eq!((m.x, m.y, m.dx, m.dy), (10, 20, 10, 20));
    let m = m.from_context(&input(-50, 1000), 550, 400);
    assert_eq!((m.x, m.y), (0, 400));
    let far = MouseState { x: i16::MAX, ..MouseState::default() }.from_context(&input(i16::MAX, 0), 550, 400);
    assert_eq!(far.x, 550);
}

#[test]
fn mouse_buttons_and_wheel() {
    let all = MouseInput { left: true, right: true, middle: true, wheel_up: true, wheel_down: true, ..input(0, 0) };
    let m = MouseState::default().from_context(&all, 10, 10);
    assert_eq!(m.button, Some(MouseButton::Left));
    assert_eq!(m.wheel, Some(WheelStep::Up));
    let m = MouseState::default().from_context(&MouseInput { right: true, middle: true, wheel_down: true, ..input(0, 0) }, 10, 10);
    assert_eq!(m.button, Some(MouseButton::Right));
    assert_eq!(m.wheel, Some(WheelStep::Down));
    let m = MouseState::default().from_context(&MouseInput { middle: true, ..input(0, 0) }, 10, 10);
    assert_eq!(m.button, Some(MouseButton::Middle));
    let m = MouseState::default().from_context(&input(0, 0), 10, 10);
    assert_eq!((m.button, m.wheel), (None, None));
}

fn all_functions() -> InterfaceFunctions {
    InterfaceFunctions {
        set_image: true,
        get_sync_index: true,
        get_sync_index_mask: true,
        wait_sync_index: true,
        lock_queue: true,
        unlock_queue: true,
        set_command_buffers: true,
        set_signal_semaphore: true,
    }
}

fn raw() -> RawRenderInterface {
    RawRenderInterface { handle: 1, instance: 2, gpu: 3, device: 4, queue: 5, queue_index: 6, functions: all_functions() }
}

#[test]
fn interface_accepts_complete_one() {
    let i = VulkanRenderInterface::new(&raw()).unwrap();
    assert_eq!((i.handle(), i.instance(), i.gpu(), i.device(), i.queue(), i.queue_index()), (1, 2, 3, 4, 5, 6));
}

#[test]
fn interface_null_handles() {
    assert_eq!(VulkanRenderInterface::new(&RawRenderInterface { handle: 0, instance: 0, ..raw() }), Err(VulkanRenderInterfaceError::NullHandle));
    assert_eq!(VulkanRenderInterface::new(&RawRenderInterface { instance: 0, ..raw() }), Err(VulkanRenderInterfaceError::NullInstance));
    assert_eq!(VulkanRenderInterface::new(&RawRenderInterface { gpu: 0, ..raw() }), Err(VulkanRenderInterfaceError::NullPhysicalDevice));
    assert_eq!(VulkanRenderInterface::new(&RawRenderInterface { device: 0, ..raw() }), Err(VulkanRenderInterfaceError::NullDevice));
    assert_eq!(VulkanRenderInterface::new(&RawRenderInterface { queue: 0, ..raw() }), Err(VulkanRenderInterfaceError::NullQueue));
}

#[test]
fn interface_null_functions_in_lookup_order() {
    let f = InterfaceFunctions { set_image: false, get_sync_index: false, ..all_functions() };
    assert_eq!(
        VulkanRenderInterface::new(&RawRenderInterface { functions: f, ..raw() }),
        Err(VulkanRenderInterfaceError::NullInterfaceFunction(InterfaceFunction::GetSyncIndex))
    );
    let f = InterfaceFunctions { set_image: false, set_signal_semaphore: false, ..all_functions() };
    assert_eq!(
        VulkanRenderInterface::new(&RawRenderInterface { functions: f, ..raw() }),
        Err(VulkanRenderInterfaceError::NullInterfaceFunction(InterfaceFunction::SetImage))
    );
    let f = InterfaceFunctions { set_signal_semaphore: false, ..all_functions() };
    assert_eq!(
        VulkanRenderInterface::new(&RawRenderInterface { functions: f, ..raw() }),
        Err(VulkanRenderInterfaceError::NullInterfaceFunction(InterfaceFunction::SetSignalSemaphore))
    );
}

#[test]
fn interface_replies() {
    assert_eq!(check_interface_reply(InterfaceReply::Interface(0)), Ok(()));
    assert_eq!(check_interface_reply(InterfaceReply::Interface(3)), Err(VulkanRenderStateError::WrongInterfaceType(3)));
    assert_eq!(check_interface_reply(InterfaceReply::Null), Err(VulkanRenderStateError::RenderInterfaceWasNull));
    assert_eq!(check_interface_reply(InterfaceReply::Unrecognized), Err(VulkanRenderStateError::UnknownEnvironmentCallback));
    assert_eq!(check_interface_reply(InterfaceReply::Unavailable), Err(VulkanRenderStateError::FailedToGetRenderInterface));
    assert_eq!(check_proc_address(false), Err(OpenGlRenderStateError::GetProcAddressNotInitialized));
    assert_eq!(check_proc_address(true), Ok(()));
}

#[test]
fn stateless_backends() {
    let _ = RetroLogBackend::new();
    let _ = RetroNavigatorBackend::new();
    let names = [1u32, 2, 3];
    assert_eq!(PropertiesFormat::new(&names[..]).len(), 3);
}
