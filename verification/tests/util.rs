use trekanten::extent::Extent2D;
use trekanten::extent::Extent3D;
use trekanten::format::ColorSpace;
use trekanten::format::ComponentLayout;
use trekanten::format::Format;
use trekanten::format::FORMAT_R8G8B8A8_SRGB;
use trekanten::mem::mip_blit_chain;
use trekanten::mem::DeviceBuffer;
use trekanten::util::clamp;
use trekanten::vertex::attribute_descriptions_for;
use trekanten::vertex::binding_description_for;
use trekanten::vertex::size_to_vk_format;
use trekanten::vertex::FORMAT_R32G32B32_SFLOAT;
use trekanten::vertex::FORMAT_R32G32_SFLOAT;
use trekanten::vertex::FORMAT_R32_SFLOAT;
use trekanten::vertex::FORMAT_UNDEFINED;
use trekanten::vertex::VERTEX_INPUT_RATE_VERTEX;

#[test]
fn clamp_inside_below_above() {
    assert_eq!(clamp(5, 1, 10), 5);
    assert_eq!(clamp(0, 1, 10), 1);
    assert_eq!(clamp(11, 1, 10), 10);
}

#[test]
fn clamp_empty_range_takes_lower_bound() {
    assert_eq!(clamp(5, 10, 1), 10);
}

#[test]
fn extent_from_2d() {
    let e = Extent3D::from_2d(Extent2D { width: 640, height: 480 }, 1);
    assert_eq!(e, Extent3D { width: 640, height: 480, depth: 1 });
}

#[test]
fn format_maps_to_api_code_and_back() {
    let f = Format { component_layout: ComponentLayout::R8G8B8A8, color_space: ColorSpace::Srgb };
    assert_eq!(f.vk_format_code(), Some(FORMAT_R8G8B8A8_SRGB));
    assert_eq!(Format::from_vk_format_code(FORMAT_R8G8B8A8_SRGB), Some(f));
}

#[test]
fn linear_format_has_no_api_code() {
    let f = Format { component_layout: ComponentLayout::R8G8B8A8, color_space: ColorSpace::Linear };
    assert_eq!(f.vk_format_code(), None);
    assert_eq!(Format::from_vk_format_code(0), None);
}

#[test]
fn mip_chain_halves_down_to_one_pixel() {
    let blits = mip_blit_chain(Extent2D { width: 8, height: 3 }, 4);
    assert_eq!(blits.len(), 3);

    assert_eq!(blits[0].src_level, 0);
    assert_eq!(blits[0].dst_level, 1);
    assert_eq!(blits[0].src_extent, Extent2D { width: 8, height: 3 });
    assert_eq!(blits[0].dst_extent, Extent2D { width: 4, height: 1 });

    assert_eq!(blits[1].src_extent, Extent2D { width: 4, height: 1 });
    assert_eq!(blits[1].dst_extent, Extent2D { width: 2, height: 1 });

    assert_eq!(blits[2].src_extent, Extent2D { width: 2, height: 1 });
    assert_eq!(blits[2].dst_extent, Extent2D { width: 1, height: 1 });
}

#[test]
fn mip_chain_of_single_level_is_empty() {
    let blits = mip_blit_chain(Extent2D { width: 16, height: 16 }, 1);
    assert!(blits.is_empty());
}

#[test]
fn device_buffer_sizes() {
    assert_eq!(DeviceBuffer::empty(64).size(), 64);
    let data = vec![0u8; 24];
    assert_eq!(DeviceBuffer::staging_with_data(&data).size(), 24);
    assert_eq!(DeviceBuffer::device_local_by_staging(&data).size(), 24);
}

#[test]
fn field_sizes_map_to_float_formats() {
    assert_eq!(size_to_vk_format(4), FORMAT_R32_SFLOAT);
    assert_eq!(size_to_vk_format(8), FORMAT_R32G32_SFLOAT);
    assert_eq!(size_to_vk_format(12), FORMAT_R32G32B32_SFLOAT);
    assert_eq!(size_to_vk_format(3), FORMAT_UNDEFINED);
}

#[test]
fn binding_description_carries_stride() {
    let b = binding_description_for(28);
    assert_eq!(b.len(), 1);
    assert_eq!(b[0].binding, 0);
    assert_eq!(b[0].stride, 28);
    assert_eq!(b[0].input_rate, VERTEX_INPUT_RATE_VERTEX);
}

#[test]
fn attributes_accumulate_offsets() {
    // A packed vertex of a vec2 position, vec3 color and vec2 texture
    // coordinate.
    let attrs = attribute_descriptions_for(&vec![8, 12, 8]);
    assert_eq!(attrs.len(), 3);

    assert_eq!(attrs[0].location, 0);
    assert_eq!(attrs[0].format, FORMAT_R32G32_SFLOAT);
    assert_eq!(attrs[0].offset, 0);

    assert_eq!(attrs[1].location, 1);
    assert_eq!(attrs[1].format, FORMAT_R32G32B32_SFLOAT);
    assert_eq!(attrs[1].offset, 8);

    assert_eq!(attrs[2].location, 2);
    assert_eq!(attrs[2].format, FORMAT_R32G32_SFLOAT);
    assert_eq!(attrs[2].offset, 20);

    assert_eq!(attrs[0].binding, 0);
}
