//! The capability table shared with the loaded module.
use vstd::prelude::*;

verus! {

/// OpenGL enumerant of a vertex shader stage.
pub const GL_VERTEX_SHADER: u32 = 0x8B31;

/// OpenGL enumerant of a fragment shader stage.
pub const GL_FRAGMENT_SHADER: u32 = 0x8B30;

/// OpenGL enumerant of a compute shader stage.
pub const GL_COMPUTE_SHADER: u32 = 0x91B9;

/// Handle of a shader program loaded through the table.
pub type Shader = u32;

/// The stage a shader source is compiled for.
#[derive(Clone, Copy, Debug, PartialEq, Eq, Structural)]
pub enum ShaderType {
    Vertex,
    Fragment,
    Compute,
}

impl ShaderType {
    /// The OpenGL enumerant naming this stage.
    pub open spec fn gl_kind_spec(self) -> u32 {
        match self {
            ShaderType::Vertex => GL_VERTEX_SHADER,
            ShaderType::Fragment => GL_FRAGMENT_SHADER,
            ShaderType::Compute => GL_COMPUTE_SHADER,
        }
    }

    /// The OpenGL enumerant naming this stage.
    pub fn gl_kind(&self) -> (r: u32)
        ensures
            r == self.gl_kind_spec(),
    {
        match self {
            ShaderType::Vertex => GL_VERTEX_SHADER,
            ShaderType::Fragment => GL_FRAGMENT_SHADER,
            ShaderType::Compute => GL_COMPUTE_SHADER,
        }
    }
}

/// One shader source file and the stage it is compiled for.
pub struct ShaderDefinition {
    pub path: String,
    pub shader_type: ShaderType,
}

/// The table's contents as the contracts see them.
pub struct TableView<C> {
    pub version: nat,
    pub clear_color: u32,
    pub capabilities: C,
}

/// The host-owned table passed into every entry point of the module.
///
/// It carries data (the reload count `version`, the clear color) and the
/// host's capabilities `C` (drawing, shaders, compute dispatch), which are
/// bound once at startup and never reassigned. The version is private: only
/// a successful reload advances it, so a module can read it but never
/// rewind it.
pub struct State<C> {
    version: u32,
    clear_color: u32,
    capabilities: C,
}

impl<C> View for State<C> {
    type V = TableView<C>;

    closed spec fn view(&self) -> TableView<C> {
        TableView {
            version: self.version as nat,
            clear_color: self.clear_color,
            capabilities: self.capabilities,
        }
    }
}

impl<C> State<C> {
    /// A table that no module has been loaded against yet.
    pub fn new(capabilities: C, clear_color: u32) -> (r: State<C>)
        ensures
            r@ == (TableView { version: 0, clear_color, capabilities }),
    {
        State { version: 0, clear_color, capabilities }
    }

    /// The number of successful reloads so far.
    pub fn version(&self) -> (r: u32)
        ensures
            r == self@.version,
    {
        self.version
    }

    /// The color the host clears the frame with.
    pub fn clear_color(&self) -> (r: u32)
        ensures
            r == self@.clear_color,
    {
        self.clear_color
    }

    /// The host capabilities bound at startup.
    pub fn capabilities(&self) -> (r: &C)
        ensures
            *r == self@.capabilities,
    {
        &self.capabilities
    }

    /// A resource handle derived from the version: three times its value.
    pub fn get_handle(&self) -> (r: u32)
        requires
            self@.version * 3 <= u32::MAX,
        ensures
            r == self@.version * 3,
    {
        self.version * 3
    }

    /// Sets the color the host clears the frame with.
    pub fn set_clear_color(&mut self, color: u32)
        ensures
            final(self)@ == (TableView { clear_color: color, ..old(self)@ }),
    {
        self.clear_color = color;
    }

    /// Records one more successful reload; nothing else changes.
    pub(crate) fn bump_version(&mut self)
        requires
            old(self)@.version < u32::MAX,
        ensures
            final(self)@ == (TableView { version: old(self)@.version + 1, ..old(self)@ }),
    {
        self.version = self.version + 1;
    }
}

/// The four channels of a packed `0xRRGGBBAA` color, red first.
pub fn rgba_channels(color: u32) -> (r: [u8; 4])
    ensures
        r[0] == color / 0x100_0000,
        r[1] == (color / 0x1_0000) % 0x100,
        r[2] == (color / 0x100) % 0x100,
        r[3] == color % 0x100,
{
    [
        (color / 0x100_0000) as u8,
        ((color / 0x1_0000) % 0x100) as u8,
        ((color / 0x100) % 0x100) as u8,
        (color % 0x100) as u8,
    ]
}

} // verus!
