use ash::vk;
use enegine::flags::{
    ACCESS_COLOR_ATTACHMENT_WRITE, ACCESS_DEPTH_STENCIL_ATTACHMENT_WRITE, MEMORY_DEVICE_LOCAL,
    MEMORY_HOST_COHERENT, MEMORY_HOST_VISIBLE, QUEUE_COMPUTE, QUEUE_GRAPHICS, QUEUE_TRANSFER,
    STAGE_COLOR_ATTACHMENT_OUTPUT, STAGE_EARLY_FRAGMENT_TESTS,
};
use enegine::flags::contains;
use enegine::barrier::{
    layout_transition, LayoutTransition, ACCESS_SHADER_READ, ACCESS_TRANSFER_WRITE,
    LAYOUT_SHADER_READ_ONLY_OPTIMAL, LAYOUT_TRANSFER_DST_OPTIMAL, LAYOUT_UNDEFINED,
    STAGE_FRAGMENT_SHADER, STAGE_TOP_OF_PIPE, STAGE_TRANSFER,
};
use enegine::pass::{
    FORMAT_R32G32B32A32_SFLOAT, FORMAT_R32G32B32_SFLOAT, FORMAT_R32G32_SFLOAT, FORMAT_R32_SFLOAT,
    LAYOUT_COLOR_ATTACHMENT_OPTIMAL, LAYOUT_DEPTH_STENCIL_ATTACHMENT_OPTIMAL, LAYOUT_PRESENT_SRC,
    LOAD_OP_CLEAR, LOAD_OP_DONT_CARE, SAMPLE_COUNT_1, STORE_OP_DONT_CARE, STORE_OP_STORE,
    SUBPASS_EXTERNAL,
};
use enegine::status::{
    ERROR_DEVICE_LOST, ERROR_INCOMPATIBLE_DRIVER, ERROR_INITIALIZATION_FAILED,
    ERROR_OUT_OF_DATE, ERROR_OUT_OF_DEVICE_MEMORY, ERROR_OUT_OF_HOST_MEMORY, NOT_READY, SUBOPTIMAL,
    SUCCESS, TIMEOUT,
};
use enegine::swapchain::{
    COLOR_SPACE_SRGB_NONLINEAR, EXTENT_UNDEFINED, FORMAT_B8G8R8A8_SRGB, PRESENT_MODE_FIFO,
    PRESENT_MODE_MAILBOX,
};
use enegine::version::{api_version_supported, check_api_version, required_api_version};
use enegine::device::InitializationError;

#[test]
fn extension_name_is_that_of_the_api_binding() {
    let name = ash::extensions::ext::DebugUtils::name().to_str().unwrap().to_string();
    assert!(enegine::instance::offers(&vec![name], "VK_EXT_debug_utils"));
}

#[test]
fn queue_flags_are_those_of_the_api() {
    assert_eq!(QUEUE_GRAPHICS, vk::QueueFlags::GRAPHICS.as_raw());
    assert_eq!(QUEUE_COMPUTE, vk::QueueFlags::COMPUTE.as_raw());
    assert_eq!(QUEUE_TRANSFER, vk::QueueFlags::TRANSFER.as_raw());
}

#[test]
fn memory_flags_are_those_of_the_api() {
    assert_eq!(MEMORY_DEVICE_LOCAL, vk::MemoryPropertyFlags::DEVICE_LOCAL.as_raw());
    assert_eq!(MEMORY_HOST_VISIBLE, vk::MemoryPropertyFlags::HOST_VISIBLE.as_raw());
    assert_eq!(MEMORY_HOST_COHERENT, vk::MemoryPropertyFlags::HOST_COHERENT.as_raw());
}

#[test]
fn stage_and_access_flags_are_those_of_the_api() {
    assert_eq!(
        STAGE_COLOR_ATTACHMENT_OUTPUT,
        vk::PipelineStageFlags::COLOR_ATTACHMENT_OUTPUT.as_raw()
    );
    assert_eq!(STAGE_EARLY_FRAGMENT_TESTS, vk::PipelineStageFlags::EARLY_FRAGMENT_TESTS.as_raw());
    assert_eq!(ACCESS_COLOR_ATTACHMENT_WRITE, vk::AccessFlags::COLOR_ATTACHMENT_WRITE.as_raw());
    assert_eq!(
        ACCESS_DEPTH_STENCIL_ATTACHMENT_WRITE,
        vk::AccessFlags::DEPTH_STENCIL_ATTACHMENT_WRITE.as_raw()
    );
}

#[test]
fn subset_test_agrees_with_the_api_binding() {
    let cases: [(u32, u32); 6] =
        [(0b111, 0b101), (0b011, 0b101), (0, 0), (0, 1), (0xFFFF_FFFF, 0x8000_0001), (0b1, 0b11)];
    for (flags, wanted) in cases {
        assert_eq!(
            contains(flags, wanted),
            vk::QueueFlags::from_raw(flags).contains(vk::QueueFlags::from_raw(wanted))
        );
    }
}

#[test]
fn formats_and_present_modes_are_those_of_the_api() {
    assert_eq!(FORMAT_B8G8R8A8_SRGB, vk::Format::B8G8R8A8_SRGB.as_raw());
    assert_eq!(COLOR_SPACE_SRGB_NONLINEAR, vk::ColorSpaceKHR::SRGB_NONLINEAR.as_raw());
    assert_eq!(PRESENT_MODE_MAILBOX, vk::PresentModeKHR::MAILBOX.as_raw());
    assert_eq!(PRESENT_MODE_FIFO, vk::PresentModeKHR::FIFO.as_raw());
    assert_eq!(EXTENT_UNDEFINED, u32::MAX);
    assert_eq!(FORMAT_R32_SFLOAT, vk::Format::R32_SFLOAT.as_raw());
    assert_eq!(FORMAT_R32G32_SFLOAT, vk::Format::R32G32_SFLOAT.as_raw());
    assert_eq!(FORMAT_R32G32B32_SFLOAT, vk::Format::R32G32B32_SFLOAT.as_raw());
    assert_eq!(FORMAT_R32G32B32A32_SFLOAT, vk::Format::R32G32B32A32_SFLOAT.as_raw());
}

#[test]
fn render_pass_constants_are_those_of_the_api() {
    assert_eq!(SUBPASS_EXTERNAL, vk::SUBPASS_EXTERNAL);
    assert_eq!(SAMPLE_COUNT_1, vk::SampleCountFlags::TYPE_1.as_raw());
    assert_eq!(LOAD_OP_CLEAR, vk::AttachmentLoadOp::CLEAR.as_raw());
    assert_eq!(LOAD_OP_DONT_CARE, vk::AttachmentLoadOp::DONT_CARE.as_raw());
    assert_eq!(STORE_OP_STORE, vk::AttachmentStoreOp::STORE.as_raw());
    assert_eq!(STORE_OP_DONT_CARE, vk::AttachmentStoreOp::DONT_CARE.as_raw());
    assert_eq!(LAYOUT_UNDEFINED, vk::ImageLayout::UNDEFINED.as_raw());
    assert_eq!(
        LAYOUT_COLOR_ATTACHMENT_OPTIMAL,
        vk::ImageLayout::COLOR_ATTACHMENT_OPTIMAL.as_raw()
    );
    assert_eq!(
        LAYOUT_DEPTH_STENCIL_ATTACHMENT_OPTIMAL,
        vk::ImageLayout::DEPTH_STENCIL_ATTACHMENT_OPTIMAL.as_raw()
    );
    assert_eq!(LAYOUT_PRESENT_SRC, vk::ImageLayout::PRESENT_SRC_KHR.as_raw());
}

#[test]
fn result_codes_are_those_of_the_api() {
    assert_eq!(SUCCESS, vk::Result::SUCCESS.as_raw());
    assert_eq!(NOT_READY, vk::Result::NOT_READY.as_raw());
    assert_eq!(TIMEOUT, vk::Result::TIMEOUT.as_raw());
    assert_eq!(SUBOPTIMAL, vk::Result::SUBOPTIMAL_KHR.as_raw());
    assert_eq!(ERROR_OUT_OF_DATE, vk::Result::ERROR_OUT_OF_DATE_KHR.as_raw());
    assert_eq!(ERROR_OUT_OF_HOST_MEMORY, vk::Result::ERROR_OUT_OF_HOST_MEMORY.as_raw());
    assert_eq!(ERROR_OUT_OF_DEVICE_MEMORY, vk::Result::ERROR_OUT_OF_DEVICE_MEMORY.as_raw());
    assert_eq!(ERROR_INITIALIZATION_FAILED, vk::Result::ERROR_INITIALIZATION_FAILED.as_raw());
    assert_eq!(ERROR_DEVICE_LOST, vk::Result::ERROR_DEVICE_LOST.as_raw());
    assert_eq!(ERROR_INCOMPATIBLE_DRIVER, vk::Result::ERROR_INCOMPATIBLE_DRIVER.as_raw());
}

#[test]
fn required_api_version_is_one_zero_zero() {
    assert_eq!(required_api_version(), 1 << 22);
    assert_eq!(required_api_version(), vk::make_version(1, 0, 0));
    assert_eq!(vk::version_major(required_api_version()), 1);
    assert_eq!(vk::version_minor(required_api_version()), 0);
    assert_eq!(vk::version_patch(required_api_version()), 0);
}

#[test]
fn api_version_is_served_by_equal_or_later_minor_and_major() {
    let v = |major: u32, minor: u32, patch: u32| vk::make_version(major, minor, patch);
    assert!(api_version_supported(v(1, 0, 0), v(1, 0, 0)));
    assert!(api_version_supported(v(1, 2, 0), v(1, 1, 0)));
    assert!(api_version_supported(v(2, 0, 0), v(1, 3, 0)));
    assert!(api_version_supported(v(1, 1, 0), v(1, 1, 200)));
    assert!(!api_version_supported(v(1, 0, 4095), v(1, 1, 0)));
    assert!(!api_version_supported(v(0, 1023, 0), v(1, 0, 0)));
}

#[test]
fn api_version_check_fails_below_one_zero() {
    assert_eq!(check_api_version(vk::make_version(1, 0, 0)), Ok(()));
    assert_eq!(check_api_version(vk::make_version(1, 2, 131)), Ok(()));
    assert_eq!(
        check_api_version(vk::make_version(0, 9, 0)),
        Err(InitializationError::ApiVersionUnsupported)
    );
    assert_eq!(check_api_version(0), Err(InitializationError::ApiVersionUnsupported));
}

#[test]
fn barrier_constants_are_those_of_the_api() {
    assert_eq!(LAYOUT_TRANSFER_DST_OPTIMAL, vk::ImageLayout::TRANSFER_DST_OPTIMAL.as_raw());
    assert_eq!(
        LAYOUT_SHADER_READ_ONLY_OPTIMAL,
        vk::ImageLayout::SHADER_READ_ONLY_OPTIMAL.as_raw()
    );
    assert_eq!(ACCESS_SHADER_READ, vk::AccessFlags::SHADER_READ.as_raw());
    assert_eq!(ACCESS_TRANSFER_WRITE, vk::AccessFlags::TRANSFER_WRITE.as_raw());
    assert_eq!(STAGE_TOP_OF_PIPE, vk::PipelineStageFlags::TOP_OF_PIPE.as_raw());
    assert_eq!(STAGE_FRAGMENT_SHADER, vk::PipelineStageFlags::FRAGMENT_SHADER.as_raw());
    assert_eq!(STAGE_TRANSFER, vk::PipelineStageFlags::TRANSFER.as_raw());
}

#[test]
fn upload_transitions_have_their_masks() {
    assert_eq!(
        layout_transition(LAYOUT_UNDEFINED, LAYOUT_TRANSFER_DST_OPTIMAL),
        Some(LayoutTransition {
            src_access_mask: 0,
            dst_access_mask: 0x1000,
            src_stage_mask: 0x1,
            dst_stage_mask: 0x1000,
        })
    );
    assert_eq!(
        layout_transition(LAYOUT_TRANSFER_DST_OPTIMAL, LAYOUT_SHADER_READ_ONLY_OPTIMAL),
        Some(LayoutTransition {
            src_access_mask: 0x1000,
            dst_access_mask: 0x20,
            src_stage_mask: 0x1000,
            dst_stage_mask: 0x80,
        })
    );
}

#[test]
fn other_transitions_are_not_known() {
    assert_eq!(layout_transition(LAYOUT_UNDEFINED, LAYOUT_SHADER_READ_ONLY_OPTIMAL), None);
    assert_eq!(layout_transition(LAYOUT_TRANSFER_DST_OPTIMAL, LAYOUT_UNDEFINED), None);
    assert_eq!(layout_transition(LAYOUT_SHADER_READ_ONLY_OPTIMAL, LAYOUT_TRANSFER_DST_OPTIMAL), None);
    assert_eq!(layout_transition(LAYOUT_UNDEFINED, LAYOUT_UNDEFINED), None);
    assert_eq!(layout_transition(2, 1_000_001_002), None);
}
