use procsky::geometry::{sky_indices, sky_vertices, Vertex};
use procsky::graph::{order_respects_edges, sky_node_edges, sky_slot_edges, GraphNodeId};
use procsky::node::{FrameInputs, SkipReason, SkyAction, SkyNode, SlotResourceKind};
use procsky::pack::{pack, unpack, DerivedCoefficients, PACKED_BYTE_LEN};
use procsky::params::{Sky, Vec3Bits};
use procsky::pipeline::{
    sky_pipeline_config, BlendFactor, BlendOperation, CullMode, FrontFace, IndexWidth,
    PolygonMode, StageSet, Topology,
};

fn zero_derived() -> DerivedCoefficients {
    DerivedCoefficients {
        rayleigh: Vec3Bits { x: 0, y: 0, z: 0 },
        mie: Vec3Bits { x: 0, y: 0, z: 0 },
    }
}

fn sample_derived() -> DerivedCoefficients {
    DerivedCoefficients {
        rayleigh: Vec3Bits {
            x: (5.8e-6f32).to_bits(),
            y: (1.35e-5f32).to_bits(),
            z: (3.31e-5f32).to_bits(),
        },
        mie: Vec3Bits {
            x: (2.0e-6f32).to_bits(),
            y: (2.0e-6f32).to_bits(),
            z: (2.0e-6f32).to_bits(),
        },
    }
}

/// The default parameter record holds the bit patterns of the canonical
/// single-precision constants.
#[test]
fn default_matches_float_constants() {
    let s = Sky::default();
    assert_eq!(s.primaries.x, (6.8e-7f32).to_bits());
    assert_eq!(s.primaries.y, (5.5e-7f32).to_bits());
    assert_eq!(s.primaries.z, (4.5e-7f32).to_bits());
    assert_eq!(s.luminance, (1.0f32).to_bits());
    assert_eq!(s.mie_k_coefficient.x, (0.686f32).to_bits());
    assert_eq!(s.mie_k_coefficient.y, (0.678f32).to_bits());
    assert_eq!(s.mie_k_coefficient.z, (0.666f32).to_bits());
    assert_eq!(s.mie_coefficient, (0.005f32).to_bits());
    assert_eq!(s.mie_directional_g, (0.8f32).to_bits());
    assert_eq!(s.mie_v, (4.0f32).to_bits());
    assert_eq!(s.mie_zenith_length, (1.25e3f32).to_bits());
    assert_eq!(s.num_molecules, (2.542e25f32).to_bits());
    assert_eq!(s.rayleigh, (1.0f32).to_bits());
    assert_eq!(s.rayleigh_zenith_length, (8.4e3f32).to_bits());
    assert_eq!(s.turbidity, (2.0f32).to_bits());
    assert_eq!(s.refractive_index, (1.000262f32).to_bits());
    assert_eq!(s.sun_position.x, (700000.0f32).to_bits());
    assert_eq!(s.sun_position.y, (50000.0f32).to_bits());
    assert_eq!(s.sun_position.z, (0.0f32).to_bits());
    assert_eq!(s.sun_angular_diameter_degrees, (0.0093333f32).to_bits());
    assert_eq!(s.sun_intensity_factor, (1000.0f32).to_bits());
    assert_eq!(s.sun_intensity_falloff_steepness, (1.5f32).to_bits());
    assert_eq!(s.tonemap_weighting, (9.50f32).to_bits());
    assert_eq!(s.depolarization_factor, (0.035f32).to_bits());
}

fn f32_at(bytes: &[u8], offset: usize) -> f32 {
    f32::from_le_bytes([
        bytes[offset],
        bytes[offset + 1],
        bytes[offset + 2],
        bytes[offset + 3],
    ])
}

/// Packing the defaults and reading the words back as floats reproduces the
/// original field values bit for bit, in declared order, with the two
/// 4-byte reserved gaps and nothing else.
#[test]
fn pack_layout_bit_for_bit() {
    let s = Sky::default();
    let d = zero_derived();
    let b = pack(&s, &d);
    assert_eq!(b.len(), 128);
    assert_eq!(b.len(), PACKED_BYTE_LEN);
    let expected: [f32; 24] = [
        6.8e-7, 5.5e-7, 4.5e-7, 1.0, 0.686, 0.678, 0.666, 0.005, 0.8, 4.0, 1.25e3, 2.542e25,
        1.0, 8.4e3, 2.0, 1.000262, 700000.0, 50000.0, 0.0, 0.0093333, 1000.0, 1.5, 9.50, 0.035,
    ];
    for (w, want) in expected.iter().enumerate() {
        assert_eq!(
            f32_at(&b, 4 * w).to_bits(),
            want.to_bits(),
            "parameter word {}",
            w
        );
    }
    // Zero-valued coefficient slots and the reserved bytes are all zero.
    for i in 96..128 {
        assert_eq!(b[i], 0, "byte {}", i);
    }
}

/// The coefficient vectors land at offsets 96 and 112, with 4 reserved
/// bytes after each.
#[test]
fn pack_places_coefficients() {
    let s = Sky::default();
    let d = sample_derived();
    let b = pack(&s, &d);
    assert_eq!(f32_at(&b, 96).to_bits(), (5.8e-6f32).to_bits());
    assert_eq!(f32_at(&b, 100).to_bits(), (1.35e-5f32).to_bits());
    assert_eq!(f32_at(&b, 104).to_bits(), (3.31e-5f32).to_bits());
    assert_eq!(&b[108..112], &[0, 0, 0, 0]);
    assert_eq!(f32_at(&b, 112).to_bits(), (2.0e-6f32).to_bits());
    assert_eq!(f32_at(&b, 116).to_bits(), (2.0e-6f32).to_bits());
    assert_eq!(f32_at(&b, 120).to_bits(), (2.0e-6f32).to_bits());
    assert_eq!(&b[124..128], &[0, 0, 0, 0]);
}

/// Packing then unpacking reproduces the record and both coefficient
/// vectors exactly.
#[test]
fn pack_roundtrip() {
    let s = Sky::default();
    let d = sample_derived();
    let b = pack(&s, &d);
    let (s2, d2) = unpack(&b);
    assert_eq!(s, s2);
    assert_eq!(d, d2);
}

/// The record's own byte image is the first 96 bytes of the packed block.
#[test]
fn as_bytes_is_params_prefix() {
    let s = Sky::default();
    let prefix = s.as_bytes();
    assert_eq!(prefix.len(), 96);
    let b = pack(&s, &zero_derived());
    assert_eq!(&prefix[..], &b[..96]);
    assert_eq!(s.byte_len(), 128);
}

/// An in-place write demands a buffer of exactly the block length and
/// leaves a wrong-sized buffer untouched.
#[test]
fn write_bytes_checks_length() {
    let s = Sky::default();
    let d = sample_derived();

    let mut short = vec![0xAAu8; 127];
    assert!(!s.try_write_bytes(&d, &mut short));
    assert!(short.iter().all(|&b| b == 0xAA));

    let mut long = vec![0xAAu8; 129];
    assert!(!s.try_write_bytes(&d, &mut long));
    assert!(long.iter().all(|&b| b == 0xAA));

    let mut exact = vec![0xAAu8; 128];
    assert!(s.try_write_bytes(&d, &mut exact));
    let packed = pack(&s, &d);
    for i in 0..128 {
        if (108..112).contains(&i) || (124..128).contains(&i) {
            // Reserved bytes are left as they were.
            assert_eq!(exact[i], 0xAA, "reserved byte {}", i);
        } else {
            assert_eq!(exact[i], packed[i], "byte {}", i);
        }
    }
}

/// The strip's 14 indices over the 8 cube corners cover each face with two
/// triangles and produce no degenerate triangle.
#[test]
fn strip_covers_cube() {
    let vertices = sky_vertices();
    let indices = sky_indices();
    assert_eq!(
        indices,
        vec![3u16, 7, 1, 5, 4, 7, 6, 3, 2, 1, 0, 4, 2, 6]
    );
    assert_eq!(vertices.len(), 8);
    for v in &vertices {
        assert!(v.x == 100 || v.x == -100);
        assert!(v.y == 100 || v.y == -100);
        assert!(v.z == 100 || v.z == -100);
    }
    // Each consecutive index triple is one triangle; classify it by the
    // coordinate its three corners share.
    let mut face_counts = [0usize; 6];
    for t in 0..12 {
        let a = vertices[indices[t] as usize];
        let b = vertices[indices[t + 1] as usize];
        let c = vertices[indices[t + 2] as usize];
        let face = common_face(a, b, c).expect("triangle must lie in one face plane");
        face_counts[face] += 1;
        // Non-degenerate: the edge cross product is not the zero vector.
        let u = (b.x - a.x, b.y - a.y, b.z - a.z);
        let v = (c.x - a.x, c.y - a.y, c.z - a.z);
        let cross = (
            u.1 * v.2 - u.2 * v.1,
            u.2 * v.0 - u.0 * v.2,
            u.0 * v.1 - u.1 * v.0,
        );
        assert_ne!(cross, (0, 0, 0), "triangle {} is degenerate", t);
    }
    assert_eq!(face_counts, [2, 2, 2, 2, 2, 2]);
}

fn common_face(a: Vertex, b: Vertex, c: Vertex) -> Option<usize> {
    if a.x == -100 && b.x == -100 && c.x == -100 {
        Some(0)
    } else if a.x == 100 && b.x == 100 && c.x == 100 {
        Some(1)
    } else if a.y == -100 && b.y == -100 && c.y == -100 {
        Some(2)
    } else if a.y == 100 && b.y == 100 && c.y == 100 {
        Some(3)
    } else if a.z == -100 && b.z == -100 && c.z == -100 {
        Some(4)
    } else if a.z == 100 && b.z == 100 && c.z == 100 {
        Some(5)
    } else {
        None
    }
}

/// With no camera binding the node skips without touching anything, and it
/// reports the other missing resources in order.
#[test]
fn node_skips_when_resources_missing() {
    let node = SkyNode::new("Camera3d".to_string());
    assert_eq!(node.camera_name, "Camera3d");
    let inputs = node.input();
    assert_eq!(inputs.len(), 1);
    assert_eq!(inputs[0].name, "color_attachment");
    assert_eq!(inputs[0].resource_kind, SlotResourceKind::Texture);

    let s = Sky::default();
    let d = sample_derived();

    let no_camera = FrameInputs {
        camera_binding_present: false,
        bind_group_descriptor_registered: true,
        color_attachment: Some(7),
    };
    match node.update(&no_camera, &s, &d) {
        SkyAction::Skip(reason) => assert_eq!(reason, SkipReason::NoCameraBinding),
        SkyAction::Draw(_) => panic!("must skip without a camera binding"),
    }

    let no_layout = FrameInputs {
        camera_binding_present: true,
        bind_group_descriptor_registered: false,
        color_attachment: Some(7),
    };
    match node.update(&no_layout, &s, &d) {
        SkyAction::Skip(reason) => assert_eq!(reason, SkipReason::NoBindGroupDescriptor),
        SkyAction::Draw(_) => panic!("must skip without the bind-group layout"),
    }

    let no_attachment = FrameInputs {
        camera_binding_present: true,
        bind_group_descriptor_registered: true,
        color_attachment: None,
    };
    match node.update(&no_attachment, &s, &d) {
        SkyAction::Skip(reason) => assert_eq!(reason, SkipReason::NoColorAttachment),
        SkyAction::Draw(_) => panic!("must skip without a color attachment"),
    }
}

/// With everything present the node issues exactly the one draw: the given
/// attachment, the fixed clear color, the packed block as push constants,
/// 14 indices, one instance.
#[test]
fn node_draws_when_ready() {
    let node = SkyNode::new("Camera3d".to_string());
    let s = Sky::default();
    let d = sample_derived();
    let frame = FrameInputs {
        camera_binding_present: true,
        bind_group_descriptor_registered: true,
        color_attachment: Some(42),
    };
    match node.update(&frame, &s, &d) {
        SkyAction::Draw(c) => {
            assert_eq!(c.attachment, 42);
            assert_eq!(c.clear_color.r, (0.94f32).to_bits());
            assert_eq!(c.clear_color.g, (1.0f32).to_bits());
            assert_eq!(c.clear_color.b, (1.0f32).to_bits());
            assert_eq!(c.clear_color.a, (1.0f32).to_bits());
            assert!(c.store);
            assert_eq!(c.push_constants, pack(&s, &d));
            assert_eq!(c.first_index, 0);
            assert_eq!(c.index_count, 14);
            assert_eq!(c.instance_count, 1);
        }
        SkyAction::Skip(reason) => panic!("must draw, skipped with {:?}", reason),
    }
}

/// The declared edges put the sky pass before the main pass and hand the
/// swap chain's texture to the sky node; orders violating that are
/// rejected.
#[test]
fn graph_wiring_orders_sky_before_main() {
    let edges = sky_node_edges();
    assert_eq!(edges.len(), 1);
    assert_eq!(edges[0].from, GraphNodeId::SkyPass);
    assert_eq!(edges[0].to, GraphNodeId::MainPass);

    let slots = sky_slot_edges();
    assert_eq!(slots.len(), 1);
    assert_eq!(slots[0].from, GraphNodeId::PrimarySwapChain);
    assert_eq!(slots[0].from_slot, 0);
    assert_eq!(slots[0].to, GraphNodeId::SkyPass);
    assert_eq!(slots[0].to_slot, 0);

    let resolved = vec![
        GraphNodeId::PrimarySwapChain,
        GraphNodeId::SkyPass,
        GraphNodeId::MainPass,
    ];
    assert!(order_respects_edges(&resolved, &edges));

    let reversed = vec![
        GraphNodeId::PrimarySwapChain,
        GraphNodeId::MainPass,
        GraphNodeId::SkyPass,
    ];
    assert!(!order_respects_edges(&reversed, &edges));

    let missing = vec![GraphNodeId::PrimarySwapChain, GraphNodeId::MainPass];
    assert!(!order_respects_edges(&missing, &edges));
}

/// The pipeline description carries the layout the shaders and blend state
/// demand.
#[test]
fn pipeline_config_is_pinned() {
    let p = sky_pipeline_config();
    assert_eq!(p.name, "SkyPipeline");
    assert_eq!(p.camera_binding_name, "Camera");
    assert_eq!(p.camera_binding_index, 0);
    assert_eq!(p.camera_binding_stages, StageSet::VertexAndFragment);
    assert_eq!(p.camera_matrix_count, 2);
    assert_eq!(p.vertex_buffer_name, "SkyboxCube");
    assert_eq!(p.vertex_stride, 12);
    assert_eq!(p.vertex_attribute_name, "Vertex_Position");
    assert_eq!(p.vertex_attribute_offset, 0);
    assert_eq!(p.vertex_attribute_shader_location, 0);
    assert_eq!(p.vertex_attribute_components, 3);
    assert_eq!(p.push_constant_stages, StageSet::Fragment);
    assert_eq!(p.push_constant_range_start, 0);
    assert_eq!(p.push_constant_range_end, 128);
    assert_eq!(p.polygon_mode, PolygonMode::Fill);
    assert_eq!(p.front_face, FrontFace::Clockwise);
    assert_eq!(p.cull_mode, CullMode::NoCulling);
    assert_eq!(p.depth_bias, 0);
    assert_eq!(p.topology, Topology::TriangleStrip);
    assert_eq!(p.color_blend.src_factor, BlendFactor::SrcAlpha);
    assert_eq!(p.color_blend.dst_factor, BlendFactor::OneMinusSrcAlpha);
    assert_eq!(p.color_blend.operation, BlendOperation::Add);
    assert_eq!(p.alpha_blend.src_factor, BlendFactor::One);
    assert_eq!(p.alpha_blend.dst_factor, BlendFactor::One);
    assert_eq!(p.alpha_blend.operation, BlendOperation::Add);
    assert!(!p.has_depth_stencil);
    assert_eq!(p.index_width, IndexWidth::Uint16);
    assert_eq!(p.sample_count, 1);
}
