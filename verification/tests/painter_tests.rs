use egui::epaint::Vertex;
use egui_miniquad::backend::TextureCommand;
use egui_miniquad::geometry::{PixelRect, Pos2, Rect, Scalar, ScissorRect, Vec2};
use egui_miniquad::gui::{
    ColorImage, ImageData, ImageDelta, TextureFilter, TextureId, TexturesDelta,
};
use egui_miniquad::mesh::{Mesh, Mesh16, MAX_VERTICES};
use egui_miniquad::painter::{
    changes_well_formed, primitives_splittable, scissor_rect, ClippedPrimitive, DrawCommand, MeshCommand, PaintCallback,
    PaintCallbackInfo, Painter, Primitive, ScreenInfo, TextureBinding, INITIAL_CAPACITY,
};

fn scalar(value: f32) -> Scalar {
    Scalar::from_bits(value.to_bits())
}

fn rect(min_x: f32, min_y: f32, max_x: f32, max_y: f32) -> Rect {
    Rect {
        min: Pos2 { x: scalar(min_x), y: scalar(min_y) },
        max: Pos2 { x: scalar(max_x), y: scalar(max_y) },
    }
}

fn px(min_x: i64, min_y: i64, max_x: i64, max_y: i64) -> PixelRect {
    PixelRect { min_x, min_y, max_x, max_y }
}

fn screen() -> ScreenInfo {
    ScreenInfo {
        width_px: 800,
        height_px: 600,
        pixels_per_point: scalar(2.0),
        size_in_points: Vec2 { x: scalar(400.0), y: scalar(300.0) },
    }
}

fn vertex(n: usize) -> Vertex {
    Vertex {
        pos: egui::pos2(n as f32, 2.0 * n as f32),
        uv: egui::pos2(0.5, 0.25),
        color: egui::Color32::from_rgba_premultiplied(n as u8, 2, 3, 4),
    }
}

fn vertices(count: usize) -> Vec<Vertex> {
    (0..count).map(vertex).collect()
}

fn triangle(texture_id: TextureId) -> Mesh {
    Mesh { indices: vec![0, 1, 2], vertices: vertices(3), texture_id }
}

fn whole(width: usize, height: usize) -> ImageDelta {
    ImageDelta {
        image: ImageData::Color(ColorImage {
            width,
            height,
            pixels: vec![[255; 4]; width * height],
        }),
        magnification: TextureFilter::Linear,
        pos: None,
    }
}

#[test]
fn scissor_keeps_a_rectangle_inside_and_flips_it() {
    assert_eq!(
        scissor_rect(px(10, 20, 110, 70), 800, 600),
        ScissorRect { x: 10, y: 530, width: 100, height: 50 }
    );
    assert_eq!(
        scissor_rect(px(0, 0, 800, 600), 800, 600),
        ScissorRect { x: 0, y: 0, width: 800, height: 600 }
    );
}

#[test]
fn scissor_cuts_a_rectangle_that_sticks_out() {
    assert_eq!(
        scissor_rect(px(-50, -10, 100, 100), 800, 600),
        ScissorRect { x: 0, y: 500, width: 100, height: 100 }
    );
    assert_eq!(
        scissor_rect(px(700, 500, 900, 700), 800, 600),
        ScissorRect { x: 700, y: 0, width: 100, height: 100 }
    );
    assert_eq!(
        scissor_rect(px(i64::MIN, i64::MIN, i64::MAX, i64::MAX), 800, 600),
        ScissorRect { x: 0, y: 0, width: 800, height: 600 }
    );
}

#[test]
fn scissor_of_a_rectangle_outside_has_no_area() {
    for clip in [
        px(900, 10, 1000, 20),
        px(-100, 10, -10, 20),
        px(10, 700, 20, 800),
        px(10, -20, 20, -10),
        px(900, 700, 1000, 800),
        px(-5, -5, 0, 0),
        px(800, 600, 900, 700),
    ] {
        let rect = scissor_rect(clip, 800, 600);
        assert!(rect.width >= 0 && rect.height >= 0, "{clip:?} gives {rect:?}");
        assert_eq!(rect.width as i64 * rect.height as i64, 0, "{clip:?} gives {rect:?}");
        assert!(rect.x >= 0 && rect.x + rect.width <= 800);
        assert!(rect.y >= 0 && rect.y + rect.height <= 600);
    }
    assert_eq!(
        scissor_rect(px(900, 10, 1000, 20), 800, 600),
        ScissorRect { x: 800, y: 580, width: 0, height: 10 }
    );
}

#[test]
fn scissor_of_a_rectangle_inside_out_has_no_area() {
    assert_eq!(
        scissor_rect(px(100, 100, 50, 50), 800, 600),
        ScissorRect { x: 100, y: 500, width: 0, height: 0 }
    );
}

#[test]
fn scissor_of_an_empty_framebuffer_is_empty() {
    assert_eq!(scissor_rect(px(0, 0, 10, 10), 0, 0), ScissorRect { x: 0, y: 0, width: 0, height: 0 });
}

#[test]
fn scissor_treats_a_framebuffer_beyond_the_coordinates_as_their_limit() {
    let rect = scissor_rect(px(0, 0, i64::MAX, 1), u32::MAX, u32::MAX);
    assert_eq!(rect, ScissorRect { x: 0, y: i32::MAX - 1, width: i32::MAX, height: 1 });
}

#[test]
fn a_new_painter_has_room_for_the_first_meshes() {
    let mut painter = Painter::new();
    assert_eq!(INITIAL_CAPACITY, 32 * 1024);
    assert_eq!(painter.textures().len(), 0);
    let mesh = Mesh16 { indices: vec![0; INITIAL_CAPACITY], vertices: vertices(3), texture_id: TextureId::User(1) };
    let commands = painter.paint_meshes(px(0, 0, 1, 1), vec![mesh], &screen());
    assert!(!commands.iter().any(|c| matches!(c, MeshCommand::ReplaceIndexBuffer { .. })));
    assert!(!commands.iter().any(|c| matches!(c, MeshCommand::ReplaceVertexBuffer { .. })));
}

#[test]
fn a_mesh_with_a_host_texture_is_uploaded_clipped_bound_and_drawn() {
    let mut painter = Painter::new();
    let commands = painter.paint_job(px(10, 20, 110, 70), triangle(TextureId::User(42)), &screen());
    assert_eq!(
        commands,
        vec![
            MeshCommand::UploadVertices { vertices: vertices(3) },
            MeshCommand::UploadIndices { indices: vec![0, 1, 2] },
            MeshCommand::ApplyScissor { rect: ScissorRect { x: 10, y: 530, width: 100, height: 50 } },
            MeshCommand::ApplyBindings { texture: TextureBinding::Raw(42) },
            MeshCommand::Draw { base_element: 0, num_elements: 3, num_instances: 1 },
        ]
    );
}

#[test]
fn a_mesh_with_a_cached_texture_binds_its_slot() {
    let mut painter = Painter::new();
    painter.set_texture(TextureId::Managed(0), &whole(1, 1));
    painter.set_texture(TextureId::Managed(5), &whole(1, 1));
    let commands = painter.paint_job(px(0, 0, 800, 600), triangle(TextureId::Managed(5)), &screen());
    assert_eq!(commands[3], MeshCommand::ApplyBindings { texture: TextureBinding::Slot(1) });
    assert_eq!(commands.len(), 5);
}

#[test]
fn a_mesh_with_an_unknown_texture_is_uploaded_but_not_drawn() {
    let mut painter = Painter::new();
    let id = TextureId::Managed(3);
    let commands = painter.paint_job(px(0, 0, 800, 600), triangle(id), &screen());
    assert_eq!(
        commands,
        vec![
            MeshCommand::UploadVertices { vertices: vertices(3) },
            MeshCommand::UploadIndices { indices: vec![0, 1, 2] },
            MeshCommand::TextureNotFound { id },
        ]
    );
}

#[test]
fn a_host_texture_is_never_looked_up_in_the_cache() {
    let mut painter = Painter::new();
    painter.set_texture(TextureId::User(7), &whole(1, 1));
    let commands = painter.paint_job(px(0, 0, 800, 600), triangle(TextureId::User(7)), &screen());
    assert_eq!(commands[3], MeshCommand::ApplyBindings { texture: TextureBinding::Raw(7) });
}

#[test]
fn buffers_are_replaced_when_too_small_and_never_shrink() {
    let mut painter = Painter::new();
    let big = INITIAL_CAPACITY + 10;
    let mesh = Mesh16 {
        indices: vec![1; big + 5],
        vertices: vertices(big),
        texture_id: TextureId::User(1),
    };
    let commands = painter.paint_meshes(px(0, 0, 1, 1), vec![mesh], &screen());
    assert_eq!(commands[0], MeshCommand::ReplaceVertexBuffer { len: big });
    assert!(matches!(commands[1], MeshCommand::UploadVertices { .. }));
    assert_eq!(commands[2], MeshCommand::ReplaceIndexBuffer { len: big + 5 });
    assert!(matches!(commands[3], MeshCommand::UploadIndices { .. }));
    assert_eq!(commands[6], MeshCommand::Draw { base_element: 0, num_elements: big + 5, num_instances: 1 });
    assert_eq!(commands.len(), 7);

    // As large again: nothing is replaced.
    let mesh = Mesh16 { indices: vec![1; big + 5], vertices: vertices(big), texture_id: TextureId::User(1) };
    let commands = painter.paint_meshes(px(0, 0, 1, 1), vec![mesh], &screen());
    assert_eq!(commands.len(), 5);

    // Smaller: nothing is replaced either.
    let commands = painter.paint_job(px(0, 0, 1, 1), triangle(TextureId::User(1)), &screen());
    assert_eq!(commands.len(), 5);

    // One more vertex than ever: only the vertex buffer is replaced.
    let mesh = Mesh16 { indices: vec![0; 3], vertices: vertices(big + 1), texture_id: TextureId::User(1) };
    let commands = painter.paint_meshes(px(0, 0, 1, 1), vec![mesh], &screen());
    assert_eq!(commands[0], MeshCommand::ReplaceVertexBuffer { len: big + 1 });
    assert_eq!(commands.len(), 6);
}

#[test]
fn a_buffer_grows_even_when_the_mesh_is_not_drawn() {
    let mut painter = Painter::new();
    let big = INITIAL_CAPACITY + 1;
    let mesh = Mesh16 { indices: vec![0; 3], vertices: vertices(big), texture_id: TextureId::Managed(9) };
    let commands = painter.paint_meshes(px(0, 0, 1, 1), vec![mesh], &screen());
    assert_eq!(commands[0], MeshCommand::ReplaceVertexBuffer { len: big });
    assert_eq!(commands[3], MeshCommand::TextureNotFound { id: TextureId::Managed(9) });
    let mesh = Mesh16 { indices: vec![0; 3], vertices: vertices(big), texture_id: TextureId::User(9) };
    let commands = painter.paint_meshes(px(0, 0, 1, 1), vec![mesh], &screen());
    assert!(matches!(commands[0], MeshCommand::UploadVertices { .. }));
}

#[test]
fn meshes_are_drawn_in_the_order_given() {
    let mut painter = Painter::new();
    let meshes: Vec<Mesh16> = (0..4u16)
        .map(|n| Mesh16 { indices: vec![n; 3], vertices: vertices(5), texture_id: TextureId::User(n as u64) })
        .collect();
    let commands = painter.paint_meshes(px(0, 0, 10, 10), meshes, &screen());
    let bound: Vec<TextureBinding> = commands
        .iter()
        .filter_map(|c| match c {
            MeshCommand::ApplyBindings { texture } => Some(*texture),
            _ => None,
        })
        .collect();
    assert_eq!(bound, (0..4).map(TextureBinding::Raw).collect::<Vec<_>>());
    let uploaded: Vec<Vec<u16>> = commands
        .iter()
        .filter_map(|c| match c {
            MeshCommand::UploadIndices { indices } => Some(indices.clone()),
            _ => None,
        })
        .collect();
    assert_eq!(uploaded, (0..4u16).map(|n| vec![n; 3]).collect::<Vec<_>>());
}

#[test]
fn validity_checks_indices_against_vertices() {
    assert!(triangle(TextureId::Managed(0)).is_valid());
    let bad = Mesh { indices: vec![0, 1, 3], vertices: vertices(3), texture_id: TextureId::Managed(0) };
    assert!(!bad.is_valid());
    assert!(!bad.is_splittable());
    let empty = Mesh { indices: vec![], vertices: vec![], texture_id: TextureId::Managed(0) };
    assert!(empty.is_valid());
    assert!(empty.is_splittable());
    let good = Mesh16 { indices: vec![2, 0], vertices: vertices(3), texture_id: TextureId::Managed(0) };
    assert!(good.is_valid());
    let bad = Mesh16 { indices: vec![3], vertices: vertices(3), texture_id: TextureId::Managed(0) };
    assert!(!bad.is_valid());
}

#[test]
fn a_small_mesh_may_have_any_number_of_indices() {
    let mesh = Mesh { indices: vec![0, 1], vertices: vertices(3), texture_id: TextureId::User(0) };
    assert!(mesh.is_splittable());
    let mut painter = Painter::new();
    let commands = painter.paint_job(px(0, 0, 1, 1), mesh, &screen());
    assert_eq!(commands[1], MeshCommand::UploadIndices { indices: vec![0, 1] });
}

#[test]
fn a_large_mesh_needs_whole_and_narrow_triangles() {
    let count = MAX_VERTICES + 10;
    let narrow = Mesh { indices: vec![0, 1, 2, 65540, 65541, 65542], vertices: vertices(count), texture_id: TextureId::User(0) };
    assert!(narrow.is_splittable());
    let partial = Mesh { indices: vec![0, 1, 2, 3], vertices: vertices(count), texture_id: TextureId::User(0) };
    assert!(!partial.is_splittable());
    let wide = Mesh { indices: vec![0, 1, 65535], vertices: vertices(count), texture_id: TextureId::User(0) };
    assert!(!wide.is_splittable());
    let just = Mesh { indices: vec![0, 1, 65534], vertices: vertices(count), texture_id: TextureId::User(0) };
    assert!(just.is_splittable());
}

#[test]
fn a_large_mesh_is_split_and_each_part_is_drawn_in_order() {
    let count = MAX_VERTICES + 10;
    let indices: Vec<u32> = vec![0, 1, 2, 10, 11, 12, 65540, 65541, 65542, 65544, 65543, 65542];
    let mesh = Mesh { indices, vertices: vertices(count), texture_id: TextureId::User(3) };
    assert!(mesh.is_splittable());
    let mut painter = Painter::new();
    let commands = painter.paint_job(px(0, 0, 800, 600), mesh, &screen());
    let uploads: Vec<&Vec<u16>> = commands
        .iter()
        .filter_map(|c| match c {
            MeshCommand::UploadIndices { indices } => Some(indices),
            _ => None,
        })
        .collect();
    assert_eq!(uploads, vec![&vec![0u16, 1, 2, 10, 11, 12], &vec![0u16, 1, 2, 4, 3, 2]]);
    let vertex_uploads: Vec<&Vec<Vertex>> = commands
        .iter()
        .filter_map(|c| match c {
            MeshCommand::UploadVertices { vertices } => Some(vertices),
            _ => None,
        })
        .collect();
    assert_eq!(vertex_uploads.len(), 2);
    assert_eq!(vertex_uploads[0], &vertices(13));
    assert_eq!(vertex_uploads[1], &(65540..65545).map(vertex).collect::<Vec<_>>());
    let draws: Vec<usize> = commands
        .iter()
        .filter_map(|c| match c {
            MeshCommand::Draw { num_elements, .. } => Some(*num_elements),
            _ => None,
        })
        .collect();
    assert_eq!(draws, vec![6, 6]);
    let bound = commands.iter().filter(|c| matches!(c, MeshCommand::ApplyBindings { texture: TextureBinding::Raw(3) })).count();
    assert_eq!(bound, 2);
}

#[test]
fn a_pass_begins_without_clearing_sets_up_and_ends() {
    let mut painter = Painter::new();
    let commands: Vec<DrawCommand<u8>> = painter.paint(Vec::new(), &screen());
    assert_eq!(
        commands,
        vec![
            DrawCommand::BeginPass,
            DrawCommand::ApplyPipeline,
            DrawCommand::ApplyUniforms { screen_size: Vec2 { x: scalar(400.0), y: scalar(300.0) } },
            DrawCommand::EndPass,
        ]
    );
}

#[test]
fn primitives_are_drawn_strictly_in_order() {
    let mut painter = Painter::new();
    let clip = rect(0.0, 0.0, 50.0, 50.0);
    let primitives = vec![
        ClippedPrimitive { clip_rect: clip, clip_rect_px: px(0, 0, 100, 100), primitive: Primitive::Mesh(triangle(TextureId::User(1))) },
        ClippedPrimitive {
            clip_rect: clip,
            clip_rect_px: px(0, 0, 100, 100),
            primitive: Primitive::Callback(PaintCallback { rect: rect(1.0, 2.0, 3.0, 4.0), callback: Some("spin") }),
        },
        ClippedPrimitive { clip_rect: clip, clip_rect_px: px(5, 5, 10, 10), primitive: Primitive::Mesh(triangle(TextureId::User(2))) },
        ClippedPrimitive {
            clip_rect: clip,
            clip_rect_px: px(0, 0, 100, 100),
            primitive: Primitive::Callback(PaintCallback { rect: rect(1.0, 2.0, 3.0, 4.0), callback: None }),
        },
    ];
    let commands = painter.paint(primitives, &screen());
    let marks: Vec<String> = commands
        .iter()
        .filter_map(|c| match c {
            DrawCommand::Mesh(MeshCommand::ApplyBindings { texture }) => Some(format!("{texture:?}")),
            DrawCommand::Mesh(MeshCommand::ApplyScissor { rect }) => Some(format!("clip {}", rect.width)),
            DrawCommand::Callback { callback, .. } => Some(format!("callback {callback}")),
            DrawCommand::UnsupportedCallback => Some("unsupported".to_string()),
            _ => None,
        })
        .collect();
    assert_eq!(marks, vec!["clip 100", "Raw(1)", "callback spin", "clip 5", "Raw(2)", "unsupported"]);
    assert_eq!(commands.first(), Some(&DrawCommand::BeginPass));
    assert_eq!(commands.last(), Some(&DrawCommand::EndPass));
    assert_eq!(commands.len(), 3 + 5 + 1 + 5 + 1 + 1);
}

#[test]
fn a_callback_is_told_its_rectangle_the_clip_and_the_screen() {
    let mut painter = Painter::new();
    let primitives = vec![ClippedPrimitive {
        clip_rect: rect(0.0, 0.0, 50.0, 60.0),
        clip_rect_px: px(0, 0, 100, 120),
        primitive: Primitive::Callback(PaintCallback { rect: rect(1.0, 2.0, 3.0, 4.0), callback: Some(17u32) }),
    }];
    let commands = painter.paint(primitives, &screen());
    assert_eq!(
        commands[3],
        DrawCommand::Callback {
            info: PaintCallbackInfo {
                viewport: rect(1.0, 2.0, 3.0, 4.0),
                clip_rect: rect(0.0, 0.0, 50.0, 60.0),
                pixels_per_point: scalar(2.0),
                screen_width_px: 800,
                screen_height_px: 600,
            },
            callback: 17,
        }
    );
}

#[test]
fn a_frame_sets_textures_paints_and_only_then_frees() {
    let mut painter = Painter::new();
    painter.set_texture(TextureId::Managed(1), &whole(1, 1));
    let delta = TexturesDelta {
        set: vec![(TextureId::Managed(2), whole(2, 2)), (TextureId::Managed(1), whole(3, 3))],
        free: vec![TextureId::Managed(2), TextureId::Managed(8)],
    };
    let clip = rect(0.0, 0.0, 1.0, 1.0);
    let primitives: Vec<ClippedPrimitive<u8>> = vec![
        ClippedPrimitive { clip_rect: clip, clip_rect_px: px(0, 0, 2, 2), primitive: Primitive::Mesh(triangle(TextureId::Managed(2))) },
        ClippedPrimitive { clip_rect: clip, clip_rect_px: px(0, 0, 2, 2), primitive: Primitive::Mesh(triangle(TextureId::Managed(1))) },
    ];
    let frame = painter.paint_and_update_textures(primitives, &delta, &screen());
    assert_eq!(frame.set.len(), 3);
    assert!(matches!(frame.set[0], TextureCommand::Create { slot: 1, .. }));
    assert!(matches!(frame.set[1], TextureCommand::Create { slot: 2, .. }));
    assert_eq!(frame.set[2], TextureCommand::Delete { slot: 0 });
    let bound: Vec<TextureBinding> = frame
        .draw
        .iter()
        .filter_map(|c| match c {
            DrawCommand::Mesh(MeshCommand::ApplyBindings { texture }) => Some(*texture),
            _ => None,
        })
        .collect();
    assert_eq!(bound, vec![TextureBinding::Slot(1), TextureBinding::Slot(2)]);
    assert_eq!(frame.free, vec![TextureCommand::Delete { slot: 1 }]);
    assert_eq!(painter.textures().lookup(TextureId::Managed(1)), Some(2));
    assert_eq!(painter.textures().lookup(TextureId::Managed(2)), None);
    assert_eq!(painter.textures().len(), 1);
}

#[test]
fn texture_changes_are_checked_before_they_are_applied() {
    assert!(changes_well_formed(&Vec::new()));
    let mut set = vec![(TextureId::Managed(0), whole(2, 3)), (TextureId::Managed(1), whole(0, 0))];
    assert!(changes_well_formed(&set));
    let mut bad = whole(2, 2);
    if let ImageData::Color(image) = &mut bad.image {
        image.pixels.push([0; 4]);
    }
    set.push((TextureId::Managed(2), bad));
    assert!(!changes_well_formed(&set));
}

#[test]
fn primitives_are_checked_before_they_are_drawn() {
    let clip = rect(0.0, 0.0, 1.0, 1.0);
    let callback = ClippedPrimitive {
        clip_rect: clip,
        clip_rect_px: px(0, 0, 1, 1),
        primitive: Primitive::Callback(PaintCallback { rect: clip, callback: Some(1u8) }),
    };
    let good = ClippedPrimitive {
        clip_rect: clip,
        clip_rect_px: px(0, 0, 1, 1),
        primitive: Primitive::Mesh(triangle(TextureId::User(0))),
    };
    let bad = ClippedPrimitive {
        clip_rect: clip,
        clip_rect_px: px(0, 0, 1, 1),
        primitive: Primitive::Mesh(Mesh { indices: vec![5], vertices: vertices(2), texture_id: TextureId::User(0) }),
    };
    assert!(primitives_splittable::<u8>(&Vec::new()));
    assert!(primitives_splittable(&vec![callback.clone(), good.clone()]));
    assert!(!primitives_splittable(&vec![callback, good, bad]));
}
