use rgx::binding::{
    Bind, Binding, BindingEntry, BindingGroup, BindingGroupLayout, BindingResource, BindingType,
    Filter, LayoutEntry, Sampler, ShaderStage, AddressMode,
};
use rgx::buffer::{IndexBuffer, UniformBuffer, VertexBuffer};
use rgx::color::Rgba8;
use rgx::command::{Frame, FrameState, LoadOp, PassCommand};
use rgx::error::Error;
use rgx::ops::{prepare, Encoded, Op};
use rgx::pipeline::{
    BindingSet, BlendFactor, BlendOp, Blending, CullMode, FrontFace, IndexFormat, Pipeline,
    PipelineDescription, PipelineLayout, PrimitiveTopology, RenderState,
};
use rgx::present::PresentMode;
use rgx::readback::{stage, ReadStatus, Readback};
use rgx::rect::Rect;
use rgx::texture::{BlitRegion, CopyRegion, Framebuffer, Texture, TextureFormat};
use rgx::vertex::{VertexAttribute, VertexFormat, VertexLayout};

#[test]
fn texture_rect_is_origin_sized() {
    let t = Texture::new(7, 3).unwrap();
    assert_eq!(t.rect(), Rect::new(0, 0, 7, 3));
    let fb = Framebuffer::new(640, 480).unwrap();
    assert_eq!(fb.texture.rect(), Rect::new(0, 0, 640, 480));
}

#[test]
fn texture_creation_errors() {
    assert_eq!(Texture::new(0, 4), Err(Error::EmptyTexture));
    assert_eq!(Texture::new(4, 0), Err(Error::EmptyTexture));
    assert_eq!(Texture::new(65536, 65536), Err(Error::TextureTooLarge));
    assert_eq!(Framebuffer::new(0, 0), Err(Error::EmptyTexture));
    assert!(Texture::new(32768, 32767).is_ok());
}

#[test]
fn texture_formats_and_usage() {
    let t = Texture::new(2, 2).unwrap();
    assert_eq!(t.format, TextureFormat::Rgba8Unorm);
    assert!(t.usage().sampled && t.usage().copy_dst && !t.usage().render_target);
    let fb = Framebuffer::new(2, 2).unwrap();
    assert_eq!(fb.texture.format, TextureFormat::Bgra8Unorm);
    assert!(fb.texture.usage().render_target && fb.texture.usage().copy_src);
    assert_eq!((fb.width(), fb.height(), fb.size()), (2, 2, 4));
    assert_eq!(Texture::from(fb), fb.texture);
}

#[test]
fn fill_requires_exact_length() {
    let t = Texture::new(4, 4).unwrap();
    assert_eq!(t.byte_size(), 64);
    let region = CopyRegion { bytes_per_row: 16, rows_per_image: 4, width: 4, height: 4 };
    assert_eq!(t.fill(&[0u8; 64]), Ok(region));
    assert_eq!(t.fill(&[0u8; 60]), Err(Error::TexelLength));
    assert_eq!(t.fill(&[0u8; 68]), Err(Error::TexelLength));
}

#[test]
fn clear_repeats_texel_in_texture_order() {
    let t = Texture::new(3, 1).unwrap();
    let (region, texels) = t.clear(Rgba8::new(1, 2, 3, 4));
    assert_eq!(region, CopyRegion { bytes_per_row: 12, rows_per_image: 1, width: 3, height: 1 });
    assert_eq!(texels, vec![1, 2, 3, 4, 1, 2, 3, 4, 1, 2, 3, 4]);
    let fb = Framebuffer::new(1, 2).unwrap();
    let (_, texels) = fb.texture.clear(Rgba8::new(1, 2, 3, 4));
    assert_eq!(texels, vec![3, 2, 1, 4, 3, 2, 1, 4]);
}

#[test]
fn transfer_checks() {
    let t = Texture::new(4, 4).unwrap();
    let ok = t.transfer(&[0u8; 32], 4, 2, 4, 2);
    assert_eq!(ok, Ok(CopyRegion { bytes_per_row: 16, rows_per_image: 2, width: 4, height: 2 }));
    assert_eq!(t.transfer(&[0u8; 33], 4, 2, 4, 2), Err(Error::TexelLength));
    assert_eq!(t.transfer(&[0u8; 28], 4, 2, 4, 2), Err(Error::TexelLength));
    assert_eq!(t.transfer(&[0u8; 32], 4, 2, 5, 4), Err(Error::TransferTooLarge));
    assert!(t.transfer(&[0u8; 64], 4, 4, 4, 4).is_ok());
}

#[test]
fn blit_requires_equal_sizes() {
    let t = Texture::new(32, 32).unwrap();
    let src = Rect::new(0, 0, 10, 10);
    assert_eq!(t.blit(src, Rect::new(5, 5, 15, 17)), Err(Error::BlitSizeMismatch));
    assert_eq!(t.blit(src, Rect::new(5, 5, 17, 15)), Err(Error::BlitSizeMismatch));
    assert_eq!(
        t.blit(Rect::new(1, 2, 11, 12), Rect::new(20, 21, 30, 31)),
        Ok(BlitRegion { src_x: 1, src_y: 2, dst_x: 20, dst_y: 21, width: 10, height: 10 })
    );
}

#[test]
fn vertex_format_sizes() {
    assert_eq!(VertexFormat::Float.bytesize(), 4);
    assert_eq!(VertexFormat::Float2.bytesize(), 8);
    assert_eq!(VertexFormat::Float3.bytesize(), 12);
    assert_eq!(VertexFormat::Float4.bytesize(), 16);
    assert_eq!(VertexFormat::UByte4.bytesize(), 4);
}

#[test]
fn vertex_layout_offsets_are_cumulative() {
    let vl = VertexLayout::from(&[VertexFormat::Float2, VertexFormat::UByte4, VertexFormat::Float3]);
    assert_eq!(vl.size, 24);
    assert_eq!(
        vl.attributes,
        vec![
            VertexAttribute { shader_location: 0, offset: 0, format: VertexFormat::Float2 },
            VertexAttribute { shader_location: 1, offset: 8, format: VertexFormat::UByte4 },
            VertexAttribute { shader_location: 2, offset: 12, format: VertexFormat::Float3 },
        ]
    );
    assert_eq!(VertexLayout::from(&[]).size, 0);
}

fn two_slot_layout() -> BindingGroupLayout {
    BindingGroupLayout::new(
        1,
        &[
            Binding { binding: BindingType::UniformBuffer, stage: ShaderStage::Vertex },
            Binding { binding: BindingType::Sampler, stage: ShaderStage::Fragment },
        ],
    )
}

#[test]
fn binding_group_layout_numbers_slots() {
    let l = two_slot_layout();
    assert_eq!((l.size(), l.set_index()), (2, 1));
    assert_eq!(
        l.entries().to_vec(),
        vec![
            LayoutEntry { binding: 0, visibility: ShaderStage::Vertex, ty: BindingType::UniformBuffer },
            LayoutEntry { binding: 1, visibility: ShaderStage::Fragment, ty: BindingType::Sampler },
        ]
    );
}

#[test]
fn binding_group_count_must_match_layout() {
    let l = two_slot_layout();
    let u = UniformBuffer::new(64, 2);
    let s = Sampler::new(Filter::Nearest, Filter::Linear);
    assert_eq!(BindingGroup::new(&l, &[Bind::Uniform(&u)]).unwrap_err(), Error::BindingCount);
    assert_eq!(
        BindingGroup::new(&l, &[Bind::Uniform(&u), Bind::Sampler(&s), Bind::Sampler(&s)])
            .unwrap_err(),
        Error::BindingCount
    );
    let g = BindingGroup::new(&l, &[Bind::Uniform(&u), Bind::Sampler(&s)]).unwrap();
    assert_eq!(g.set_index, 1);
    assert_eq!(
        g.entries,
        vec![
            BindingEntry { binding: 0, resource: BindingResource::Buffer { size: 64 } },
            BindingEntry { binding: 1, resource: BindingResource::Sampler },
        ]
    );
}

#[test]
fn bind_describes_each_resource() {
    let t = Texture::new(1, 1).unwrap();
    let fb = Framebuffer::new(1, 1).unwrap();
    assert_eq!(Bind::Texture(&t).binding(3).resource, BindingResource::TextureView);
    assert_eq!(Bind::Framebuffer(&fb).binding(0).resource, BindingResource::TextureView);
    let s = Sampler::new(Filter::Linear, Filter::Linear);
    assert_eq!(s.address_mode(), AddressMode::Repeat);
    assert_eq!(s.mipmap_filter(), Filter::Nearest);
}

#[test]
fn pipeline_layout_numbers_sets() {
    let a = [Binding { binding: BindingType::UniformBuffer, stage: ShaderStage::Vertex }];
    let b = [
        Binding { binding: BindingType::SampledTexture, stage: ShaderStage::Fragment },
        Binding { binding: BindingType::Sampler, stage: ShaderStage::Fragment },
    ];
    let sets = [BindingSet(&a), BindingSet(&b)];
    let pl = PipelineLayout::new(&sets);
    assert_eq!(pl.sets.len(), 2);
    assert_eq!((pl.sets[0].set_index(), pl.sets[0].size()), (0, 1));
    assert_eq!((pl.sets[1].set_index(), pl.sets[1].size()), (1, 2));
    let desc = PipelineDescription {
        vertex_layout: &[VertexFormat::Float2, VertexFormat::Float4],
        pipeline_layout: &sets,
        vertex_shader: &[],
        fragment_shader: &[],
    };
    let p = Pipeline::from_description(&desc, Blending::constant());
    assert_eq!(p.vertex_layout.size, 24);
    assert_eq!(p.layout.sets.len(), 2);
    assert_eq!(
        p.render_state(),
        RenderState {
            topology: PrimitiveTopology::TriangleList,
            front_face: FrontFace::Ccw,
            cull_mode: CullMode::Off,
            index_format: IndexFormat::Uint16,
            target_format: TextureFormat::Bgra8Unorm,
            sample_count: 1,
            color_blend: Blending::constant(),
            alpha_blend: Blending::constant(),
        }
    );
}

#[test]
fn blending_modes() {
    let d = Blending::default();
    assert_eq!(d, Blending::new(BlendFactor::SrcAlpha, BlendFactor::OneMinusSrcAlpha, BlendOp::Add));
    let c = Blending::constant();
    assert_eq!((c.src_factor, c.dst_factor, c.operation), (BlendFactor::One, BlendFactor::Zero, BlendOp::Add));
    assert_eq!(PresentMode::default(), PresentMode::Vsync);
}

#[test]
fn draw_buffer_draws_whole_buffer_once() {
    let verts = [0u64; 6];
    let vb = VertexBuffer::new(verts.len());
    let mut frame = Frame::new(1);
    let mut pass = frame.pass(LoadOp::Clear).unwrap();
    let draw = pass.draw_buffer(&vb).unwrap();
    let expected = PassCommand::Draw { vertex_start: 0, vertex_end: 6, instance_start: 0, instance_end: 1 };
    assert_eq!(draw, expected);
    assert_eq!(pass.commands(), &[PassCommand::SetVertexBuffer { size: 6 }, expected]);
    frame.end_pass(&mut pass).unwrap();
    assert_eq!(frame.submit(), Ok(()));
}

#[test]
fn draw_ranges_are_checked() {
    let vb = VertexBuffer::new(6);
    let ib = IndexBuffer::new(12);
    let mut frame = Frame::new(1);
    let mut pass = frame.pass(LoadOp::Load).unwrap();
    assert_eq!(pass.load(), LoadOp::Load);
    assert_eq!(pass.draw_buffer_range(&vb, 2..7), Err(Error::DrawRange));
    assert_eq!(pass.draw_buffer_range(&vb, 4..2), Err(Error::DrawRange));
    assert_eq!(
        pass.draw_buffer_range(&vb, 2..6),
        Ok(PassCommand::Draw { vertex_start: 2, vertex_end: 6, instance_start: 0, instance_end: 1 })
    );
    assert_eq!(pass.draw_indexed(0..3, 0..1), Err(Error::NoIndexBuffer));
    assert_eq!(pass.set_index_buffer(&ib), Ok(PassCommand::SetIndexBuffer { size: 12 }));
    assert_eq!(pass.draw_indexed(0..13, 0..1), Err(Error::DrawRange));
    assert_eq!(
        pass.draw_indexed(3..12, 0..4),
        Ok(PassCommand::DrawIndexed { index_start: 3, index_end: 12, instance_start: 0, instance_end: 4 })
    );
    assert_eq!(pass.commands().len(), 4);
}

#[test]
fn frame_and_pass_protocol() {
    let l = two_slot_layout();
    let u = UniformBuffer::new(16, 1);
    let s = Sampler::new(Filter::Nearest, Filter::Nearest);
    let g = BindingGroup::new(&l, &[Bind::Uniform(&u), Bind::Sampler(&s)]).unwrap();
    let p = Pipeline::from_description(
        &PipelineDescription { vertex_layout: &[], pipeline_layout: &[], vertex_shader: &[], fragment_shader: &[] },
        Blending::default(),
    );
    let mut frame = Frame::new(1);
    assert_eq!(frame.state(), FrameState::Recording);
    let mut pass = frame.pass(LoadOp::Clear).unwrap();
    assert_eq!(frame.state(), FrameState::InPass);
    assert_eq!(frame.pass(LoadOp::Load).unwrap_err(), Error::PassAlreadyOpen);
    assert_eq!(frame.copy(&u, &u), Err(Error::PassStillOpen));
    assert_eq!(frame.submit(), Err(Error::PassStillOpen));
    assert_eq!(pass.set_pipeline(&p), Ok(PassCommand::SetPipeline));
    assert_eq!(pass.set_binding(&g), Ok(PassCommand::SetBinding { set_index: 1 }));
    frame.end_pass(&mut pass).unwrap();
    assert!(!pass.is_open());
    assert_eq!(pass.set_pipeline(&p), Err(Error::PassClosed));
    assert_eq!(frame.end_pass(&mut pass), Err(Error::PassClosed));
    let mut second = frame.pass(LoadOp::Load).unwrap();
    frame.end_pass(&mut second).unwrap();
    assert_eq!(frame.submit(), Ok(()));
    assert_eq!(frame.state(), FrameState::Submitted);
    assert_eq!(frame.submit(), Err(Error::FrameSubmitted));
    assert_eq!(frame.pass(LoadOp::Load).unwrap_err(), Error::FrameSubmitted);
}

#[test]
fn uniform_updates_and_copies() {
    let big = UniformBuffer::new(16, 4);
    let small = UniformBuffer::new(16, 2);
    let other = UniformBuffer::new(8, 4);
    assert_eq!(big.byte_len(), 64);
    assert_eq!(big.update(16, 3), Ok(48));
    assert_eq!(big.update(8, 3), Err(Error::ElementSize));
    assert_eq!(big.update(16, 5), Err(Error::ElementCount));
    let mut frame = Frame::new(1);
    assert_eq!(frame.copy(&small, &big), Ok(32));
    assert_eq!(frame.copy(&big, &small), Err(Error::ElementCount));
    assert_eq!(frame.copy(&other, &big), Err(Error::ElementSize));
    assert_eq!(frame.update_uniforms(&big, 16, 4), Ok(64));
}

fn padded_image(texels: &[u8], row: usize, padded: usize) -> Vec<u8> {
    let mut out = Vec::new();
    for chunk in texels.chunks(row) {
        out.extend_from_slice(chunk);
        out.resize(out.len() + (padded - row), 0xee);
    }
    out
}

#[test]
fn cleared_framebuffer_reads_back_as_bgra() {
    let fb = Framebuffer::new(2, 2).unwrap();
    let (region, texels) = fb.texture.clear(Rgba8::new(255, 0, 0, 255));
    assert_eq!(region, CopyRegion { bytes_per_row: 8, rows_per_image: 2, width: 2, height: 2 });
    let mut rb = Readback::new(&fb).unwrap();
    assert_eq!(rb.region().bytes_per_row, 256);
    assert_eq!(rb.buffer_size(), 512);
    let mapped = padded_image(&texels, 8, 256);
    assert_eq!(rb.receive(&mapped[..100]), Ok(ReadStatus::Pending));
    assert!(!rb.is_complete());
    assert_eq!(rb.receive(&mapped[100..]), Ok(ReadStatus::Complete));
    let bytes = rb.texels();
    assert_eq!(bytes.len(), 16);
    for texel in bytes.chunks(4) {
        assert_eq!(texel, &[0, 0, 255, 255]);
    }
}

#[test]
fn readback_refuses_extra_bytes() {
    let fb = Framebuffer::new(64, 1).unwrap();
    let mut rb = Readback::new(&fb).unwrap();
    assert_eq!(rb.buffer_size(), 256);
    assert_eq!(rb.receive(&[0u8; 257]), Err(Error::ReadbackOverflow));
    assert_eq!(rb.receive(&[7u8; 256]), Ok(ReadStatus::Complete));
    assert_eq!(rb.texels(), vec![7u8; 256]);
    assert_eq!(rb.receive(&[0u8; 1]), Err(Error::ReadbackOverflow));
}

#[test]
fn readback_strips_row_padding() {
    let fb = Framebuffer::new(3, 2).unwrap();
    let mut rb = Readback::new(&fb).unwrap();
    let texels: Vec<u8> = (0u8..24).collect();
    let mapped = padded_image(&texels, 12, 256);
    assert_eq!(rb.receive(&mapped), Ok(ReadStatus::Complete));
    assert_eq!(rb.texels(), texels);
}

#[test]
fn prepare_stops_at_first_failing_op() {
    let t = Texture::new(2, 2).unwrap();
    let good = [0u8; 16];
    let bad = [0u8; 12];
    let ops = [Op::Fill(&t, &good), Op::Clear(&t, Rgba8::blue())];
    let planned = prepare(&ops).unwrap();
    assert_eq!(planned.len(), 2);
    match &planned[1] {
        Encoded::Texels { texels, .. } => assert_eq!(&texels[0..4], &[0, 0, 255, 255]),
        _ => panic!("clear must upload texels"),
    }
    let ops = [
        Op::Fill(&t, &good),
        Op::Blit(&t, Rect::new(0, 0, 1, 1), Rect::new(0, 0, 1, 2)),
        Op::Fill(&t, &bad),
    ];
    assert_eq!(prepare(&ops).unwrap_err(), Error::BlitSizeMismatch);
    let ops = [Op::Transfer(&t, &bad, 3, 1, 3, 1), Op::Fill(&t, &bad)];
    assert_eq!(prepare(&ops).unwrap_err(), Error::TexelLength);
}

#[test]
fn error_messages_name_the_violation() {
    assert_eq!(Error::TexelLength.message(), "fatal: incorrect length for texel buffer");
    assert_eq!(Error::BindingCount.message(), "layout slot count does not match bindings");
}

#[test]
fn transfer_refuses_rows_longer_than_32_bits() {
    let t = Texture::new(4, 4).unwrap();
    assert_eq!(t.transfer(&[], 1 << 30, 0, 1, 1), Err(Error::RowTooLong));
}

#[test]
fn readback_refuses_rows_longer_than_32_bits_after_padding() {
    let fb = Framebuffer::new(1_073_741_823, 1).unwrap();
    assert_eq!(Readback::new(&fb).unwrap_err(), Error::RowTooLong);
    let fb = Framebuffer::new(1_073_741_760, 1).unwrap();
    assert_eq!(Readback::new(&fb).unwrap().region().bytes_per_row, 4_294_967_040);
}

#[test]
fn pipeline_blends_color_and_alpha_alike() {
    let p = Pipeline::from_description(
        &PipelineDescription { vertex_layout: &[], pipeline_layout: &[], vertex_shader: &[], fragment_shader: &[] },
        Blending::default(),
    );
    let s = p.render_state();
    assert_eq!(s.color_blend, Blending::default());
    assert_eq!(s.alpha_blend, Blending::default());
}

#[test]
fn end_pass_keeps_recorded_state() {
    let vb = VertexBuffer::new(3);
    let mut frame = Frame::new(1);
    let mut pass = frame.pass(LoadOp::Clear).unwrap();
    pass.draw_buffer(&vb).unwrap();
    frame.end_pass(&mut pass).unwrap();
    assert_eq!(pass.load(), LoadOp::Clear);
    assert_eq!(pass.commands().len(), 2);
}

#[test]
fn stage_pads_rows_to_alignment() {
    let texels: Vec<u8> = (1u8..=24).collect();
    let region = CopyRegion { bytes_per_row: 12, rows_per_image: 2, width: 3, height: 2 };
    let (staged_region, staged) = stage(region, &texels).unwrap();
    assert_eq!(staged_region, CopyRegion { bytes_per_row: 256, ..region });
    assert_eq!(staged.len(), 512);
    assert_eq!(&staged[0..12], &texels[0..12]);
    assert!(staged[12..256].iter().all(|b| *b == 0));
    assert_eq!(&staged[256..268], &texels[12..24]);
    assert!(staged[268..].iter().all(|b| *b == 0));
    assert_eq!(stage(region, &texels[..20]).unwrap_err(), Error::TexelLength);
    let long = CopyRegion { bytes_per_row: 4_294_967_292, rows_per_image: 0, width: 1_073_741_823, height: 0 };
    assert_eq!(stage(long, &[]).unwrap_err(), Error::RowTooLong);
}

#[test]
fn staged_upload_reads_back_unchanged() {
    let fb = Framebuffer::new(5, 3).unwrap();
    let (region, texels) = fb.texture.clear(Rgba8::new(9, 8, 7, 6));
    let (_, staged) = stage(region, &texels).unwrap();
    let mut rb = Readback::new(&fb).unwrap();
    assert_eq!(rb.receive(&staged), Ok(ReadStatus::Complete));
    assert_eq!(rb.texels(), texels);
}

#[test]
fn pass_must_end_on_its_own_frame() {
    let mut a = Frame::new(1);
    let mut b = Frame::new(2);
    assert_eq!((a.id(), b.id()), (1, 2));
    let mut pass = a.pass(LoadOp::Load).unwrap();
    assert_eq!(b.end_pass(&mut pass), Err(Error::ForeignPass));
    assert!(pass.is_open());
    assert_eq!(a.state(), FrameState::InPass);
    assert_eq!(b.state(), FrameState::Recording);
    assert_eq!(a.end_pass(&mut pass), Ok(()));
    assert_eq!(a.submit(), Ok(()));
}

#[test]
fn every_error_has_its_message() {
    assert_eq!(Error::ForeignPass.message(), "fatal: pass ended on a frame that did not open it");
    assert_eq!(Error::BlitSizeMismatch.message(), "source and destination rectangles must be of the same size");
    assert_eq!(Error::EmptyTexture.message(), "fatal: texture width and height must be greater than zero");
}
