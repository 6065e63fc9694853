use hotham::context::{
    instance_config, swapchain_config, swapchain_resolution, Extent2D, ViewConfig,
};
use hotham::material::get_texture_set;

#[test]
fn instance_config_defaults() {
    let c = instance_config(None, None);
    assert_eq!(c.application_name, "Hotham Application");
    assert_eq!(c.application_version, 1);
    assert_eq!(c.engine_name, "Hotham");
    assert_eq!(c.engine_version, 1);
    assert!(c.enable_vulkan);
}

#[test]
fn instance_config_overrides() {
    let c = instance_config(Some("Beat Blocks"), Some(7));
    assert_eq!(c.application_name, "Beat Blocks");
    assert_eq!(c.application_version, 7);
    assert_eq!(c.engine_name, "Hotham");
    assert_eq!(c.engine_version, 1);
    assert!(c.enable_vulkan);
}

#[test]
fn swapchain_resolution_takes_the_first_view() {
    let views = vec![
        ViewConfig { recommended_width: 1832, recommended_height: 1920 },
        ViewConfig { recommended_width: 640, recommended_height: 480 },
    ];
    assert_eq!(
        swapchain_resolution(&views),
        Some(Extent2D { width: 1832, height: 1920 })
    );
}

#[test]
fn swapchain_resolution_of_no_views_is_none() {
    assert_eq!(swapchain_resolution(&Vec::new()), None);
}

#[test]
fn swapchain_config_is_single_sampled_and_flat() {
    let c = swapchain_config(Extent2D { width: 1832, height: 1920 }, 2, 43);
    assert_eq!(c.width, 1832);
    assert_eq!(c.height, 1920);
    assert_eq!(c.array_size, 2);
    assert_eq!(c.format, 43);
    assert_eq!(c.sample_count, 1);
    assert_eq!(c.mip_count, 1);
    assert_eq!(c.face_count, 1);
    assert!(c.color_attachment);
}

#[test]
fn texture_set_of_a_reference_is_its_coordinate_set() {
    assert_eq!(get_texture_set(Some(0)), 0);
    assert_eq!(get_texture_set(Some(1)), 1);
}

#[test]
fn texture_set_of_no_reference_is_minus_one() {
    assert_eq!(get_texture_set(None), -1);
}
