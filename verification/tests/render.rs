use wmc::error::{ComponentError, CoreError, RenderError};
use wmc::marker::{Color, Marker, MarkerId};
use wmc::marker_buffer::{InstanceBuilder, MarkerBuffer, MarkerInstance};
use wmc::program::{
    compile_shader_outcome, link_program_outcome, resolve_uniform_location, shader_type_name,
    FRAGMENT_SHADER_TYPE, VERTEX_SHADER_TYPE,
};
use wmc::projection::{EquirectangularProjection, ProjectedCoord, SUBPIXELS_PER_PIXEL};
use wmc::renderer::{build_vertices, build_vertices_projected};
use wmc::topology::{RawFeature, RawGeometry, RawPayload, WorldTopology};

fn inst(seed: u32) -> MarkerInstance {
    MarkerInstance {
        x: seed,
        y: seed + 1,
        intensity: seed + 2,
        phase: seed + 3,
        r: seed + 4,
        g: seed + 5,
        b: seed + 6,
        a: seed + 7,
    }
}

#[test]
fn buffer_capacity_three_scenario() {
    let mut buf = MarkerBuffer::new(3);
    assert!(buf.is_empty());
    assert_eq!(buf.capacity(), 3);
    for i in 0..3 {
        assert_eq!(buf.push(inst(i)), Ok(()));
    }
    assert_eq!(
        buf.push(inst(99)),
        Err(CoreError::BufferOverflow { requested: 4, capacity: 3 })
    );
    assert_eq!(buf.len(), 3);
    buf.clear();
    assert_eq!(buf.len(), 0);
    assert_eq!(buf.capacity(), 3);
    for i in 10..13 {
        assert_eq!(buf.push(inst(i)), Ok(()));
    }
    assert_eq!(buf.len(), 3);
}

#[test]
fn buffer_update_in_bounds_and_out() {
    let mut buf = MarkerBuffer::new(4);
    buf.push(inst(0)).unwrap();
    buf.push(inst(8)).unwrap();
    assert_eq!(buf.update(1, inst(100)), Ok(()));
    assert_eq!(
        buf.update(2, inst(0)),
        Err(CoreError::BufferOverflow { requested: 3, capacity: 2 })
    );
    assert_eq!(buf.len(), 2);
    // The byte view reflects the overwrite.
    let bytes = buf.as_bytes();
    assert_eq!(&bytes[32..36], &100u32.to_le_bytes());
}

#[test]
fn buffer_as_bytes_exact_layout() {
    let mut buf = MarkerBuffer::new(2);
    assert!(buf.as_bytes().is_empty());
    buf.push(inst(1)).unwrap();
    let bytes = buf.as_bytes();
    assert_eq!(bytes.len(), 32);
    let mut expected = Vec::new();
    for w in [1u32, 2, 3, 4, 5, 6, 7, 8] {
        expected.extend_from_slice(&w.to_le_bytes());
    }
    assert_eq!(bytes, expected);
    buf.push(inst(0x01020304)).unwrap();
    let bytes = buf.as_bytes();
    assert_eq!(bytes.len(), 64);
    assert_eq!(&bytes[0..32], &expected[..]);
    assert_eq!(&bytes[32..36], &[0x04, 0x03, 0x02, 0x01]);
}

#[test]
fn instance_builder_uses_default_or_override() {
    let builder = InstanceBuilder::new(Color::rgba(10, 20, 30, 40));
    let mut marker = Marker::new(MarkerId::Number(5), 0, 0).unwrap();
    let built = builder.build(&marker, 7, 9);
    assert_eq!((built.x, built.y), (7, 9));
    assert_eq!(built.intensity, 1_000_000);
    assert_eq!(built.phase, 7332);
    assert_eq!((built.r, built.g, built.b, built.a), (10, 20, 30, 40));

    marker.color = Some(Color::rgba(200, 100, 50, 25));
    let built = builder.build(&marker, 7, 9);
    assert_eq!((built.r, built.g, built.b, built.a), (200, 100, 50, 25));
    assert_eq!(u64::from(built.phase), marker.phase());
}

fn line_string_points(n: i64) -> Vec<Vec<i64>> {
    (0..n).map(|i| vec![i * 1_000_000, i * 2_000_000]).collect()
}

#[test]
fn topology_line_string_counts() {
    let payload = RawPayload::FeatureCollection(vec![RawFeature {
        geometry: Some(RawGeometry::LineString(line_string_points(3))),
    }]);
    let topo = WorldTopology::from_payload(&payload).unwrap();
    assert_eq!(topo.line_count(), 1);
    assert_eq!(topo.point_count(), 3);
}

#[test]
fn topology_polygon_ring_counts() {
    let ring = line_string_points(4);
    let payload = RawPayload::FeatureCollection(vec![RawFeature {
        geometry: Some(RawGeometry::Polygon(vec![ring])),
    }]);
    let topo = WorldTopology::from_payload(&payload).unwrap();
    assert_eq!(topo.line_count(), 1);
    assert_eq!(topo.point_count(), 4);
}

#[test]
fn topology_multi_polygon_flattens_rings() {
    let payload = RawPayload::FeatureCollection(vec![RawFeature {
        geometry: Some(RawGeometry::MultiPolygon(vec![
            vec![line_string_points(4), line_string_points(3)],
            vec![line_string_points(5)],
        ])),
    }]);
    let topo = WorldTopology::from_payload(&payload).unwrap();
    assert_eq!(topo.line_count(), 3);
    assert_eq!(topo.point_count(), 12);
}

#[test]
fn topology_drops_unsupported_and_missing_geometries() {
    let payload = RawPayload::FeatureCollection(vec![
        RawFeature { geometry: Some(RawGeometry::Unsupported) },
        RawFeature { geometry: None },
        RawFeature { geometry: Some(RawGeometry::LineString(line_string_points(2))) },
    ]);
    let topo = WorldTopology::from_payload(&payload).unwrap();
    assert_eq!(topo.features.len(), 1);
    assert_eq!(topo.line_count(), 1);
    assert_eq!(topo.point_count(), 2);
}

#[test]
fn topology_rejects_non_collection_payload() {
    let r = WorldTopology::from_payload(&RawPayload::Other);
    assert_eq!(
        r.unwrap_err(),
        CoreError::TopologyParseError { details: "Expected FeatureCollection".to_string() }
    );
}

#[test]
fn parse_geometry_rejects_unsupported_kind() {
    let r = WorldTopology::parse_geometry(&RawGeometry::Unsupported);
    assert_eq!(
        r.unwrap_err(),
        CoreError::TopologyParseError { details: "Unsupported geometry type".to_string() }
    );
}

#[test]
fn topology_drops_malformed_points_individually() {
    let line = vec![
        vec![0, 0],
        vec![5_000_000],  // too short: dropped
        vec![181_000_000, 0],  // longitude out of range: dropped
        vec![0, 91_000_000],  // latitude out of range: dropped
        vec![1_000_000, 2_000_000, 300],  // extra component ignored
    ];
    let payload = RawPayload::FeatureCollection(vec![RawFeature {
        geometry: Some(RawGeometry::LineString(line)),
    }]);
    let topo = WorldTopology::from_payload(&payload).unwrap();
    assert_eq!(topo.point_count(), 2);
}

#[test]
fn build_vertices_pairs_consecutive_points() {
    // Equator at longitudes -180, 0, 180 on a 1x1 viewport.
    let line = vec![
        vec![-180_000_000, 0],
        vec![0, 0],
        vec![180_000_000, 0],
    ];
    let payload = RawPayload::FeatureCollection(vec![RawFeature {
        geometry: Some(RawGeometry::LineString(line)),
    }]);
    let topo = WorldTopology::from_payload(&payload).unwrap();
    let proj = EquirectangularProjection::new(1, 1);
    let vertices = build_vertices(&topo, &proj);
    let half = SUBPIXELS_PER_PIXEL / 2;
    assert_eq!(
        vertices,
        vec![0, half, half, half, half, half, SUBPIXELS_PER_PIXEL, half]
    );
}

#[test]
fn build_vertices_projected_flattens_lines() {
    let lines = vec![
        vec![
            ProjectedCoord { x: 1, y: 2 },
            ProjectedCoord { x: 3, y: 4 },
            ProjectedCoord { x: 5, y: 6 },
        ],
        vec![ProjectedCoord { x: 7, y: 8 }],  // single point: no segment
        vec![ProjectedCoord { x: 9, y: 10 }, ProjectedCoord { x: 11, y: 12 }],
    ];
    let vertices = build_vertices_projected(&lines);
    assert_eq!(vertices, vec![1, 2, 3, 4, 3, 4, 5, 6, 9, 10, 11, 12]);
}

#[test]
fn shader_type_names() {
    assert_eq!(shader_type_name(VERTEX_SHADER_TYPE), "vertex");
    assert_eq!(shader_type_name(FRAGMENT_SHADER_TYPE), "fragment");
    assert_eq!(shader_type_name(0), "unknown");
}

#[test]
fn compile_outcome_paths() {
    assert_eq!(compile_shader_outcome(VERTEX_SHADER_TYPE, true, true, None), Ok(()));
    assert_eq!(
        compile_shader_outcome(VERTEX_SHADER_TYPE, false, false, None),
        Err(RenderError::ShaderCompilationFailed {
            shader_type: "vertex".to_string(),
            log: "Failed to create shader".to_string(),
        })
    );
    assert_eq!(
        compile_shader_outcome(FRAGMENT_SHADER_TYPE, true, false, Some("syntax".to_string())),
        Err(RenderError::ShaderCompilationFailed {
            shader_type: "fragment".to_string(),
            log: "syntax".to_string(),
        })
    );
    assert_eq!(
        compile_shader_outcome(FRAGMENT_SHADER_TYPE, true, false, None),
        Err(RenderError::ShaderCompilationFailed {
            shader_type: "fragment".to_string(),
            log: "Unknown error".to_string(),
        })
    );
}

#[test]
fn link_outcome_paths() {
    assert_eq!(link_program_outcome(true, true, None), Ok(()));
    assert_eq!(
        link_program_outcome(false, false, None),
        Err(RenderError::ProgramLinkingFailed { log: "Failed to create program".to_string() })
    );
    assert_eq!(
        link_program_outcome(true, false, Some("undefined symbol".to_string())),
        Err(RenderError::ProgramLinkingFailed { log: "undefined symbol".to_string() })
    );
    assert_eq!(
        link_program_outcome(true, false, None),
        Err(RenderError::ProgramLinkingFailed { log: "Unknown error".to_string() })
    );
}

#[test]
fn resolve_uniform_location_paths() {
    assert_eq!(resolve_uniform_location(Some(7u32), "u_color"), Ok(7));
    assert_eq!(
        resolve_uniform_location::<u32>(None, "u_color"),
        Err(RenderError::UniformLocationNotFound { name: "u_color".to_string() })
    );
}

#[test]
fn render_and_component_error_messages() {
    assert_eq!(
        RenderError::WebGLContextCreationFailed.message(),
        "Failed to create WebGL2 context"
    );
    assert_eq!(RenderError::UnsupportedWebGLVersion.message(), "WebGL2 not supported");
    assert_eq!(
        RenderError::VaoCreationFailed.message(),
        "Failed to create Vertex Array Object"
    );
    assert_eq!(
        RenderError::BufferAllocationFailed { size: 16 }.message(),
        "Buffer allocation failed"
    );
    assert_eq!(
        RenderError::ShaderCompilationFailed {
            shader_type: "vertex".to_string(),
            log: "syntax".to_string(),
        }
        .message(),
        "Shader compilation failed (vertex): syntax"
    );
    assert_eq!(
        RenderError::ProgramLinkingFailed { log: "undefined symbol".to_string() }.message(),
        "Program linking failed: undefined symbol"
    );
    assert_eq!(
        RenderError::UniformLocationNotFound { name: "u_color".to_string() }.message(),
        "Uniform location not found: u_color"
    );
    assert_eq!(ComponentError::ComponentNotMounted.message(), "Component not mounted");
    assert_eq!(
        ComponentError::RenderError { details: "x".to_string() }.message(),
        "Render error: x"
    );
    assert_eq!(
        ComponentError::AttributeParseError {
            attribute: "markers".to_string(),
            value: "?".to_string(),
        }
        .message(),
        "Failed to parse attribute 'markers': ?"
    );
    assert_eq!(
        ComponentError::MarkerUrlFetchFailed { url: "u".to_string(), status: 404 }.message(),
        "Failed to fetch markers from u"
    );
}
