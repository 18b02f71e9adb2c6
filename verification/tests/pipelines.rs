use grafx::bind_group::{
    BindGroupBuilder, BindGroupBuilderWith, BindGroupLayoutEntry, Binding, BindingResource,
    BindingType, ShaderStages,
};
use grafx::buffer::UniformBuffer;
use grafx::context::Context;
use grafx::data::Format;
use grafx::driver::{Handle, Request, ResourceKind};
use grafx::graphics_state::SurfaceFormat;
use grafx::pipeline::{
    BlendState, ColorTargetState, ColorWrites, Face, FrontFace, MultisampleState, PipelineBuilder,
    PolygonMode, PrimitiveState, PrimitiveTopology, RenderPipelineDescriptor, Shader,
};
use grafx::texture::{RgbaImage, Sampler, Texture2D};
use grafx::vertex::{Layout, LayoutBuilder, Vertex};

struct Colored;

impl Vertex for Colored {
    fn layout() -> Layout {
        Layout::from_fields(&[Format::Float32x3, Format::Float32x3])
    }
}

struct Flat;

impl Vertex for Flat {
    fn layout() -> Layout {
        let mut builder = LayoutBuilder::new(8);
        builder.field(Format::Float32x2);
        builder.build()
    }
}

fn context() -> Context {
    Context::new(SurfaceFormat { code: 23, srgb: true }, (640, 480))
}

fn descriptor(
    layout: Handle,
    module: Handle,
    buffers: Vec<Layout>,
    format: SurfaceFormat,
) -> RenderPipelineDescriptor {
    RenderPipelineDescriptor {
        layout,
        module,
        vertex_entry_point: "vs_main",
        buffers,
        primitive: PrimitiveState {
            topology: PrimitiveTopology::TriangleList,
            strip_index_format: None,
            front_face: FrontFace::Ccw,
            cull_mode: Some(Face::Back),
            unclipped_depth: false,
            polygon_mode: PolygonMode::Fill,
            conservative: false,
        },
        depth_stencil: false,
        multisample: MultisampleState {
            count: 1,
            mask: u64::MAX,
            alpha_to_coverage_enabled: false,
        },
        fragment_entry_point: "fs_main",
        target: ColorTargetState {
            format,
            blend: Some(BlendState::Replace),
            write_mask: ColorWrites { red: true, green: true, blue: true, alpha: true },
        },
        multiview: None,
    }
}

#[test]
fn bindings_are_numbered_in_the_order_of_with() {
    let mut ctx = context();
    let shader = Shader::new(&mut ctx, String::new());
    let empty = RgbaImage { width: 0, height: 0, pixels: vec![] };
    let texture = Texture2D::from_image(&mut ctx, empty).unwrap();
    let sampler = Sampler::new(&mut ctx);
    let buffer = UniformBuffer::new(&mut ctx, &[0; 4]);
    ctx.take_requests();

    let mut pipeline_builder = PipelineBuilder::new(&shader);
    let group = BindGroupBuilder::new()
        .with(&buffer)
        .with(&texture)
        .with(&sampler)
        .with(&buffer)
        .build(&mut ctx, &mut pipeline_builder);

    let fragment = ShaderStages { vertex: false, fragment: true };
    let both = ShaderStages { vertex: true, fragment: true };
    let uniform = BindingType::UniformBuffer { has_dynamic_offset: false, min_binding_size: None };
    let sampled = BindingType::SampledTexture { filterable: true, multisampled: false };
    assert_eq!(
        ctx.take_requests(),
        vec![
            Request::CreateBindGroupLayout {
                id: group.layout(),
                entries: vec![
                    BindGroupLayoutEntry { binding: 0, visibility: both, ty: uniform, count: None },
                    BindGroupLayoutEntry {
                        binding: 1,
                        visibility: fragment,
                        ty: sampled,
                        count: None
                    },
                    BindGroupLayoutEntry {
                        binding: 2,
                        visibility: fragment,
                        ty: BindingType::FilteringSampler,
                        count: None
                    },
                    BindGroupLayoutEntry { binding: 3, visibility: both, ty: uniform, count: None },
                ],
            },
            Request::CreateBindGroup {
                id: group.id(),
                layout: group.layout(),
                entries: vec![
                    Binding { binding: 0, resource: BindingResource::Buffer(buffer.id()) },
                    Binding { binding: 1, resource: BindingResource::TextureView(texture.id()) },
                    Binding { binding: 2, resource: BindingResource::Sampler(sampler.id()) },
                    Binding { binding: 3, resource: BindingResource::Buffer(buffer.id()) },
                ],
            },
        ]
    );
    assert_eq!(ctx.kind_of(group.layout()), Some(ResourceKind::BindGroupLayout));
    assert_eq!(ctx.kind_of(group.id()), Some(ResourceKind::BindGroup));
}

#[test]
fn a_bind_group_without_resources_is_built_all_the_same() {
    let mut ctx = context();
    let shader = Shader::new(&mut ctx, String::new());
    ctx.take_requests();
    let mut pipeline_builder = PipelineBuilder::new(&shader);
    let group = BindGroupBuilder::new().build(&mut ctx, &mut pipeline_builder);
    assert_eq!(
        ctx.take_requests(),
        vec![
            Request::CreateBindGroupLayout { id: group.layout(), entries: vec![] },
            Request::CreateBindGroup { id: group.id(), layout: group.layout(), entries: vec![] },
        ]
    );
    let pipeline = pipeline_builder.build(&mut ctx);
    assert_eq!(pipeline.bind_group_layouts(), &vec![group.layout()]);
}

#[test]
fn builds_accumulate_layouts_in_call_order() {
    let mut ctx = context();
    let shader = Shader::new(&mut ctx, String::new());
    let buffer = UniformBuffer::new(&mut ctx, &[0; 4]);
    let sampler = Sampler::new(&mut ctx);
    let mut pipeline_builder = PipelineBuilder::new(&shader);
    let mut groups = Vec::new();
    for round in 0..5 {
        let builder = if round % 2 == 0 {
            BindGroupBuilder::new().with(&buffer)
        } else {
            BindGroupBuilder::new().with(&sampler).with(&buffer)
        };
        groups.push(builder.build(&mut ctx, &mut pipeline_builder));
    }
    ctx.take_requests();
    let pipeline = pipeline_builder.build(&mut ctx);

    let layouts: Vec<Handle> = groups.iter().map(|group| group.layout()).collect();
    assert_eq!(layouts.len(), 5);
    assert_eq!(pipeline.bind_group_layouts(), &layouts);
    let requests = ctx.take_requests();
    assert_eq!(requests.len(), 2);
    assert_eq!(
        requests[0],
        Request::CreatePipelineLayout {
            id: Handle { index: pipeline.id().index - 1 },
            bind_group_layouts: layouts
        }
    );
}

#[test]
fn attach_order_meets_build_order() {
    let mut ctx = context();
    let shader = Shader::new(&mut ctx, String::new());
    let empty = RgbaImage { width: 0, height: 0, pixels: vec![] };
    let texture = Texture2D::from_image(&mut ctx, empty).unwrap();
    let sampler = Sampler::new(&mut ctx);
    let camera = UniformBuffer::new(&mut ctx, &[0; 64]);
    let mut pipeline_builder = PipelineBuilder::new(&shader).with_vertex::<Colored>();
    let diffuse =
        BindGroupBuilder::new().with(&texture).with(&sampler).build(&mut ctx, &mut pipeline_builder);
    let view = BindGroupBuilder::new().with(&camera).build(&mut ctx, &mut pipeline_builder);
    let pipeline = pipeline_builder.build(&mut ctx);

    let built = [&diffuse, &view];
    for (index, group) in built.iter().enumerate() {
        assert_eq!(pipeline.bind_group_layouts()[index], group.layout());
    }
    assert_ne!(diffuse.layout(), view.layout());
    assert_ne!(diffuse.id(), view.id());
}

#[test]
fn pipeline_state_is_fixed() {
    let mut ctx = context();
    let shader = Shader::new(&mut ctx, String::from("shader"));
    let buffer = UniformBuffer::new(&mut ctx, &[0; 4]);
    let mut pipeline_builder =
        PipelineBuilder::new(&shader).with_vertex::<Colored>().with_vertex::<Flat>();
    let group = BindGroupBuilder::new().with(&buffer).build(&mut ctx, &mut pipeline_builder);
    ctx.take_requests();
    let pipeline = pipeline_builder.build(&mut ctx);

    let layout = Handle { index: 4 };
    assert_eq!(pipeline.id(), Handle { index: 5 });
    assert_eq!(ctx.kind_of(layout), Some(ResourceKind::PipelineLayout));
    assert_eq!(ctx.kind_of(pipeline.id()), Some(ResourceKind::RenderPipeline));
    assert_eq!(
        ctx.take_requests(),
        vec![
            Request::CreatePipelineLayout { id: layout, bind_group_layouts: vec![group.layout()] },
            Request::CreateRenderPipeline {
                id: pipeline.id(),
                descriptor: descriptor(
                    layout,
                    shader.id(),
                    vec![Colored::layout(), Flat::layout()],
                    SurfaceFormat { code: 23, srgb: true },
                ),
            },
        ]
    );
}

#[test]
fn vertex_streams_keep_the_order_of_declaration() {
    let mut ctx = context();
    let shader = Shader::new(&mut ctx, String::new());
    let extra = Layout::from_fields(&[Format::Float32x2, Format::Float32x2]);
    let pipeline_builder = PipelineBuilder::new(&shader)
        .with_vertex::<Flat>()
        .with_layout(extra)
        .with_vertex::<Colored>();
    ctx.take_requests();
    pipeline_builder.build(&mut ctx);
    let requests = ctx.take_requests();
    match &requests[1] {
        Request::CreateRenderPipeline { descriptor, .. } => {
            let strides: Vec<u64> = descriptor.buffers.iter().map(|l| l.stride()).collect();
            assert_eq!(strides, vec![8, 16, 24]);
        }
        other => panic!("{:?}", other),
    }
}
