use vstd::prelude::*;

use crate::bindgroup::{consistent, BindGroup};
use crate::uniform::{uniform_layout_entry, GroupEntry, LayoutEntry, ResourceKind, Uniform};

verus! {

/// wgpu's surface color format. The renderer never looks inside it: it is
/// taken from the surface and handed back in the surface configuration.
#[verifier::external_type_specification]
#[verifier::external_body]
pub struct ExTextureFormat(wgpu::TextureFormat);

/// A drawable size in physical pixels.
#[derive(Clone, Copy, Debug, PartialEq, Eq, Structural)]
pub struct Size {
    pub width: u32,
    pub height: u32,
}

#[derive(Clone, Copy, Debug, PartialEq, Eq, Structural)]
pub enum PresentMode {
    Fifo,
    Mailbox,
    Immediate,
}

/// How the presentation surface is configured.
pub struct SurfaceSettings {
    pub render_attachment: bool,
    pub format: wgpu::TextureFormat,
    pub width: u32,
    pub height: u32,
    pub present_mode: PresentMode,
}

/// The global uniform block read by the shaders. Every field holds a whole
/// number; the GPU block stores each one as a 32-bit float, in this order.
#[derive(Clone, Copy, Debug, PartialEq, Eq, Structural)]
pub struct GlobalData {
    pub time: u32,
    pub screen_width: u32,
    pub screen_height: u32,
    pub dpi: u32,
    pub mouse_x: u32,
    pub mouse_y: u32,
    pub aspect_ratio: u32,
    pub mouse_down: u32,
}

/// The uniform block at start-up: the screen size set, every other field zero.
pub open spec fn initial_global(size: Size) -> GlobalData {
    GlobalData {
        time: 0,
        screen_width: size.width,
        screen_height: size.height,
        dpi: 0,
        mouse_x: 0,
        mouse_y: 0,
        aspect_ratio: 0,
        mouse_down: 0,
    }
}

/// `g` with its screen size replaced by `size`.
pub open spec fn with_screen(g: GlobalData, size: Size) -> GlobalData {
    GlobalData { screen_width: size.width, screen_height: size.height, ..g }
}

/// An RGBA colour with 8 bits per channel.
#[derive(Clone, Copy, Debug, PartialEq, Eq, Structural)]
pub struct Rgba8 {
    pub r: u8,
    pub g: u8,
    pub b: u8,
    pub a: u8,
}

pub open spec fn opaque_white() -> Rgba8 {
    Rgba8 { r: 255, g: 255, b: 255, a: 255 }
}

/// One step of drawing a frame, in the order the command model demands.
#[derive(Clone, Copy, Debug, PartialEq, Eq, Structural)]
pub enum FrameCommand {
    AcquireTexture,
    CreateView,
    BeginEncoder,
    BeginPass { clear: Rgba8 },
    SetBindGroup { slot: u32 },
    SetPipeline,
    Draw { vertices: u32, instances: u32 },
    EndPass,
    Submit,
    Present,
}

/// The steps of one frame: one pass that clears to opaque white, binds the
/// group at slot 0, and draws 4 vertices of 1 instance; then submit, then present.
pub open spec fn frame_commands() -> Seq<FrameCommand> {
    seq![
        FrameCommand::AcquireTexture,
        FrameCommand::CreateView,
        FrameCommand::BeginEncoder,
        FrameCommand::BeginPass { clear: opaque_white() },
        FrameCommand::SetBindGroup { slot: 0 },
        FrameCommand::SetPipeline,
        FrameCommand::Draw { vertices: 4, instances: 1 },
        FrameCommand::EndPass,
        FrameCommand::Submit,
        FrameCommand::Present,
    ]
}

/// A failure to acquire the next surface texture.
#[derive(Clone, Copy, Debug, PartialEq, Eq, Structural)]
pub enum SurfaceFault {
    Timeout,
    Outdated,
    Lost,
    OutOfMemory,
}

/// What to do after a failed acquire.
#[derive(Clone, Copy, Debug, PartialEq, Eq, Structural)]
pub enum Recovery {
    /// Reapply the current configuration, then try the frame once more.
    ReconfigureAndRetry,
    /// Drop this frame and wait for the next redraw.
    SkipFrame,
    /// Stop rendering.
    Fatal,
}

pub open spec fn recovery_for(fault: SurfaceFault) -> Recovery {
    match fault {
        SurfaceFault::Lost | SurfaceFault::Outdated => Recovery::ReconfigureAndRetry,
        SurfaceFault::Timeout => Recovery::SkipFrame,
        SurfaceFault::OutOfMemory => Recovery::Fatal,
    }
}

/// The binding slot of the global uniform block.
pub const GLOBAL_BINDING: u32 = 0;

/// The state of the renderer: drawable size, surface configuration, the
/// global uniform and the binding set that exposes it.
pub struct RenderSystem {
    size: Size,
    config: SurfaceSettings,
    bindgroup: BindGroup,
    global_uniforms: Uniform<GlobalData>,
}

impl RenderSystem {
    pub closed spec fn size_view(&self) -> Size {
        self.size
    }

    pub closed spec fn config_size(&self) -> Size {
        Size { width: self.config.width, height: self.config.height }
    }

    pub closed spec fn config_format(&self) -> wgpu::TextureFormat {
        self.config.format
    }

    pub closed spec fn config_present_mode(&self) -> PresentMode {
        self.config.present_mode
    }

    pub closed spec fn config_render_attachment(&self) -> bool {
        self.config.render_attachment
    }

    /// The CPU copy of the global uniform block.
    pub closed spec fn globals(&self) -> GlobalData {
        self.global_uniforms.value()
    }

    /// What the GPU buffer of the global uniform block holds.
    pub closed spec fn uploaded_globals(&self) -> GlobalData {
        self.global_uniforms.buffer_value()
    }

    pub closed spec fn layout_view(&self) -> Seq<LayoutEntry> {
        self.bindgroup.layout_view()
    }

    pub closed spec fn group_view(&self) -> Seq<GroupEntry> {
        self.bindgroup.group_view()
    }

    /// The surface, the uniform block and its buffer all agree on the
    /// drawable size, and the binding set exposes exactly the uniform block.
    pub closed spec fn wf(&self) -> bool {
        &&& self.config.width == self.size.width
        &&& self.config.height == self.size.height
        &&& self.global_uniforms.value().screen_width == self.size.width
        &&& self.global_uniforms.value().screen_height == self.size.height
        &&& self.global_uniforms.buffer_value() == self.global_uniforms.value()
        &&& self.global_uniforms.binding_slot() == GLOBAL_BINDING
        &&& self.bindgroup.wf()
        &&& self.bindgroup.layout_view() == seq![uniform_layout_entry(GLOBAL_BINDING)]
        &&& self.bindgroup.group_view() == seq![
            GroupEntry { binding: GLOBAL_BINDING, kind: ResourceKind::UniformBuffer },
        ]
    }

    /// A renderer for a window of `size` whose surface prefers `format`:
    /// the surface is configured for render-attachment use at that size with
    /// FIFO presentation, and the uniform block starts as `initial_global(size)`.
    pub fn new(size: Size, format: wgpu::TextureFormat) -> (r: RenderSystem)
        ensures
            r.wf(),
            r.size_view() == size,
            r.config_size() == size,
            r.config_format() == format,
            r.config_present_mode() == PresentMode::Fifo,
            r.config_render_attachment(),
            r.globals() == initial_global(size),
            r.uploaded_globals() == initial_global(size),
    {
        let config = SurfaceSettings {
            render_attachment: true,
            format,
            width: size.width,
            height: size.height,
            present_mode: PresentMode::Fifo,
        };
        let global_data = GlobalData {
            time: 0,
            screen_width: size.width,
            screen_height: size.height,
            dpi: 0,
            mouse_x: 0,
            mouse_y: 0,
            aspect_ratio: 0,
            mouse_down: 0,
        };
        let global_uniforms = Uniform::new(global_data, GLOBAL_BINDING);
        let layout_entries: Vec<LayoutEntry> = vec![global_uniforms.layout_entry()];
        let group_entries: Vec<GroupEntry> = vec![global_uniforms.entry()];
        proof {
            let l = layout_entries@;
            let g = group_entries@;
            assert forall|i: int| 0 <= i < l.len() implies !#[trigger] crate::bindgroup::bad_at(
                l,
                g,
                i,
            ) by {
                assert(i == 0);
                assert(!crate::bindgroup::duplicate_at(l, 0));
            }
            assert(consistent(l, g));
        }
        let bindgroup = match BindGroup::new(
            (layout_entries.as_slice(), group_entries.as_slice()),
            "Render",
        ) {
            Ok(b) => b,
            Err(_) => vstd::pervasive::unreached(),
        };
        proof {
            assert(bindgroup.layout_view() =~= seq![uniform_layout_entry(GLOBAL_BINDING)]);
            assert(bindgroup.group_view() =~= seq![
                GroupEntry { binding: GLOBAL_BINDING, kind: ResourceKind::UniformBuffer },
            ]);
        }
        RenderSystem { size, config, bindgroup, global_uniforms }
    }

    /// Takes a new drawable size: the surface is configured at that size and
    /// the uniform block's screen size is patched and written through to its
    /// buffer at once. Returns the block that was uploaded.
    pub fn resize(&mut self, new_size: Size) -> (upload: GlobalData)
        requires
            old(self).wf(),
        ensures
            resized(*old(self), *final(self), new_size),
            final(self).wf(),
            final(self).size_view() == new_size,
            final(self).config_size() == new_size,
            final(self).globals() == with_screen(old(self).globals(), new_size),
            final(self).uploaded_globals() == final(self).globals(),
            upload == final(self).globals(),
            final(self).config_format() == old(self).config_format(),
            final(self).config_present_mode() == old(self).config_present_mode(),
            final(self).config_render_attachment() == old(self).config_render_attachment(),
            final(self).layout_view() == old(self).layout_view(),
            final(self).group_view() == old(self).group_view(),
    {
        self.size = new_size;
        self.config.width = new_size.width;
        self.config.height = new_size.height;
        let globals = self.global_uniforms.mut_uniforms();
        globals.screen_width = new_size.width;
        globals.screen_height = new_size.height;
        self.global_uniforms.write_through()
    }

    /// Brings the surface configuration back to the stored drawable size.
    pub fn resize_no_change(&mut self)
        requires
            old(self).wf(),
        ensures
            final(self).wf(),
            final(self).config_size() == old(self).size_view(),
            final(self).size_view() == old(self).size_view(),
            final(self).globals() == old(self).globals(),
            final(self).uploaded_globals() == old(self).uploaded_globals(),
            final(self).config_format() == old(self).config_format(),
            final(self).config_present_mode() == old(self).config_present_mode(),
            final(self).config_render_attachment() == old(self).config_render_attachment(),
            final(self).layout_view() == old(self).layout_view(),
            final(self).group_view() == old(self).group_view(),
    {
        self.config.width = self.size.width;
        self.config.height = self.size.height;
    }

    /// The steps of the next frame, in the order they must run.
    pub fn render(&self) -> (r: Vec<FrameCommand>)
        ensures
            r@ == frame_commands(),
    {
        let white = Rgba8 { r: 255, g: 255, b: 255, a: 255 };
        let r: Vec<FrameCommand> = vec![
            FrameCommand::AcquireTexture,
            FrameCommand::CreateView,
            FrameCommand::BeginEncoder,
            FrameCommand::BeginPass { clear: white },
            FrameCommand::SetBindGroup { slot: GLOBAL_BINDING },
            FrameCommand::SetPipeline,
            FrameCommand::Draw { vertices: 4, instances: 1 },
            FrameCommand::EndPass,
            FrameCommand::Submit,
            FrameCommand::Present,
        ];
        assert(r@ =~= frame_commands());
        r
    }

    /// What to do when acquiring the surface texture failed with `fault`:
    /// a lost or outdated surface is reconfigured and the frame retried, a
    /// timeout skips the frame, and running out of memory is fatal.
    pub fn recover(&mut self, fault: SurfaceFault) -> (r: Recovery)
        requires
            old(self).wf(),
        ensures
            r == recovery_for(fault),
            final(self).wf(),
            final(self).size_view() == old(self).size_view(),
            final(self).config_size() == old(self).size_view(),
            final(self).globals() == old(self).globals(),
            final(self).uploaded_globals() == old(self).uploaded_globals(),
            final(self).config_format() == old(self).config_format(),
            final(self).config_present_mode() == old(self).config_present_mode(),
            final(self).config_render_attachment() == old(self).config_render_attachment(),
            final(self).layout_view() == old(self).layout_view(),
            final(self).group_view() == old(self).group_view(),
    {
        match fault {
            SurfaceFault::Lost | SurfaceFault::Outdated => {
                self.resize_no_change();
                Recovery::ReconfigureAndRetry
            },
            SurfaceFault::Timeout => Recovery::SkipFrame,
            SurfaceFault::OutOfMemory => Recovery::Fatal,
        }
    }

    pub fn size(&self) -> (r: Size)
        ensures
            r == self.size_view(),
    {
        self.size
    }

    pub fn config(&self) -> (r: &SurfaceSettings)
        ensures
            r.width == self.config_size().width,
            r.height == self.config_size().height,
            r.format == self.config_format(),
            r.present_mode == self.config_present_mode(),
            r.render_attachment == self.config_render_attachment(),
    {
        &self.config
    }

    pub fn global_uniforms(&self) -> (r: &Uniform<GlobalData>)
        requires
            self.wf(),
        ensures
            r.value() == self.globals(),
            r.buffer_value() == self.uploaded_globals(),
            r.binding_slot() == GLOBAL_BINDING,
    {
        &self.global_uniforms
    }

    pub fn bindgroup(&self) -> (r: &BindGroup)
        requires
            self.wf(),
        ensures
            r.layout_view() == self.layout_view(),
            r.group_view() == self.group_view(),
            r.wf(),
    {
        &self.bindgroup
    }
}

/// `b` is `a` after `resize(size)`, as that function states.
pub open spec fn resized(a: RenderSystem, b: RenderSystem, size: Size) -> bool {
    &&& b.wf()
    &&& b.size_view() == size
    &&& b.config_size() == size
    &&& b.globals() == with_screen(a.globals(), size)
    &&& b.uploaded_globals() == b.globals()
}

/// After every call of a sequence of resizes, the surface configuration,
/// the uniform block and its buffer all hold the size of that call.
pub proof fn lemma_resizes_never_stale(states: Seq<RenderSystem>, sizes: Seq<Size>)
    requires
        states.len() == sizes.len() + 1,
        forall|i: int| 0 <= i < sizes.len() ==> resized(#[trigger] states[i], states[i + 1], sizes[i]),
    ensures
        forall|i: int|
            0 <= i < sizes.len() ==> {
                &&& (#[trigger] states[i + 1]).config_size() == sizes[i]
                &&& states[i + 1].globals().screen_width == sizes[i].width
                &&& states[i + 1].globals().screen_height == sizes[i].height
                &&& states[i + 1].uploaded_globals().screen_width == sizes[i].width
                &&& states[i + 1].uploaded_globals().screen_height == sizes[i].height
            },
{
    assert forall|i: int| 0 <= i < sizes.len() implies {
        &&& (#[trigger] states[i + 1]).config_size() == sizes[i]
        &&& states[i + 1].globals().screen_width == sizes[i].width
        &&& states[i + 1].globals().screen_height == sizes[i].height
        &&& states[i + 1].uploaded_globals().screen_width == sizes[i].width
        &&& states[i + 1].uploaded_globals().screen_height == sizes[i].height
    } by {
        assert(resized(states[i], states[i + 1], sizes[i]));
    }
}

} // verus!
