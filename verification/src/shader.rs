//! The shader compiler adapter: what is asked of the platform compiler for
//! each stage, and what its answer means.

use crate::encoding::c_str_prefix;
use crate::encoding::c_str_text;
use crate::encoding::encode_wide_path;
use crate::encoding::has_interior_nul;
use crate::encoding::is_c_string;
use crate::encoding::lemma_nul_terminated_is_c_string;
use crate::encoding::lemma_utf16_interior_nul;
use crate::encoding::lemma_wide_terminated_is_c_string;
use crate::encoding::nul_terminated;
use crate::encoding::nul_unit_position;
use crate::encoding::utf16_encode;
use crate::encoding::wide_terminated;
use vstd::prelude::*;
use vstd::utf8::decode_utf8;
use vstd::utf8::encode_utf8;
use vstd::utf8::is_ascii_chars;
use vstd::utf8::is_ascii_chars_encode_utf8;
use vstd::utf8::valid_utf8;

verus! {

/// The two programmable pipeline stages the renderer uses.
#[derive(Clone, Copy, Debug, PartialEq, Eq, Structural)]
pub enum ShaderStage {
    Vertex,
    Pixel,
}

/// A stage together with the path of the source file to compile for it.
#[derive(Clone, Debug, PartialEq, Eq)]
pub enum ShaderType {
    Vertex(String),
    Pixel(String),
}

/// Options handed to the compiler.
#[derive(Clone, Copy, Debug, PartialEq, Eq, Structural)]
pub struct CompileFlags {
    /// Keep debug information in the bytecode.
    pub debug_info: bool,
    /// Do not optimise.
    pub skip_optimization: bool,
}

/// Everything the platform compiler is given for one stage.
#[derive(Clone, Debug, PartialEq, Eq)]
pub struct CompileRequest {
    pub stage: ShaderStage,
    /// The source path in UTF-16, closed by one NUL.
    pub source_path: Vec<u16>,
    /// The entry point's name, closed by one NUL.
    pub entry_point: Vec<u8>,
    /// The target profile's name, closed by one NUL.
    pub target_profile: Vec<u8>,
    pub flags: CompileFlags,
}

/// The mathematical content of a `CompileRequest`.
pub struct CompileRequestView {
    pub stage: ShaderStage,
    pub source_path: Seq<u16>,
    pub entry_point: Seq<u8>,
    pub target_profile: Seq<u8>,
    pub flags: CompileFlags,
}

impl View for CompileRequest {
    type V = CompileRequestView;

    open spec fn view(&self) -> CompileRequestView {
        CompileRequestView {
            stage: self.stage,
            source_path: self.source_path@,
            entry_point: self.entry_point@,
            target_profile: self.target_profile@,
            flags: self.flags,
        }
    }
}

/// What the platform compiler handed back: its status code, the bytecode
/// blob and the blob of error messages, each as far as it was returned.
#[derive(Clone, Debug, PartialEq, Eq)]
pub struct CompileOutcome {
    /// Negative on failure.
    pub status: i32,
    pub bytecode: Option<Vec<u8>>,
    pub diagnostics: Option<Vec<u8>>,
}

/// The mathematical content of a `CompileOutcome`.
pub struct CompileOutcomeView {
    pub status: i32,
    pub bytecode: Option<Seq<u8>>,
    pub diagnostics: Option<Seq<u8>>,
}

impl View for CompileOutcome {
    type V = CompileOutcomeView;

    open spec fn view(&self) -> CompileOutcomeView {
        CompileOutcomeView {
            status: self.status,
            bytecode: match self.bytecode {
                Some(b) => Some(b@),
                None => None,
            },
            diagnostics: match self.diagnostics {
                Some(d) => Some(d@),
                None => None,
            },
        }
    }
}

/// Why a shader could not be made.
#[derive(Clone, Debug, PartialEq, Eq)]
pub enum ShaderError {
    /// The source path holds a NUL before its last character; the position
    /// counts UTF-16 units.
    InvalidPath { stage: ShaderStage, nul_position: usize },
    /// The compiler reported success and returned no bytecode.
    MissingBytecode { stage: ShaderStage },
    /// The compiler failed and returned no messages.
    MissingDiagnostic { stage: ShaderStage, status: i32 },
    /// The compiler failed and its messages are not valid UTF-8.
    UnreadableDiagnostic { stage: ShaderStage, status: i32 },
    /// The compiler rejected the source; `diagnostic` is what it said.
    Compilation { stage: ShaderStage, status: i32, diagnostic: String },
    /// The device refused the compiled bytecode.
    Creation { stage: ShaderStage },
}

/// The mathematical content of a `ShaderError`.
pub enum ShaderErrorView {
    InvalidPath { stage: ShaderStage, nul_position: usize },
    MissingBytecode { stage: ShaderStage },
    MissingDiagnostic { stage: ShaderStage, status: i32 },
    UnreadableDiagnostic { stage: ShaderStage, status: i32 },
    Compilation { stage: ShaderStage, status: i32, diagnostic: Seq<char> },
    Creation { stage: ShaderStage },
}

impl View for ShaderError {
    type V = ShaderErrorView;

    open spec fn view(&self) -> ShaderErrorView {
        match *self {
            ShaderError::InvalidPath { stage, nul_position } => ShaderErrorView::InvalidPath {
                stage,
                nul_position,
            },
            ShaderError::MissingBytecode { stage } => ShaderErrorView::MissingBytecode { stage },
            ShaderError::MissingDiagnostic { stage, status } => ShaderErrorView::MissingDiagnostic {
                stage,
                status,
            },
            ShaderError::UnreadableDiagnostic {
                stage,
                status,
            } => ShaderErrorView::UnreadableDiagnostic { stage, status },
            ShaderError::Compilation { stage, status, diagnostic } => ShaderErrorView::Compilation {
                stage,
                status,
                diagnostic: diagnostic@,
            },
            ShaderError::Creation { stage } => ShaderErrorView::Creation { stage },
        }
    }
}

/// The name of the function at which a stage's program starts.
pub open spec fn entry_point_name(stage: ShaderStage) -> Seq<char> {
    match stage {
        ShaderStage::Vertex => "vs_main"@,
        ShaderStage::Pixel => "ps_main"@,
    }
}

/// The name of the profile a stage is compiled against.
pub open spec fn target_profile_name(stage: ShaderStage) -> Seq<char> {
    match stage {
        ShaderStage::Vertex => "vs_5_0"@,
        ShaderStage::Pixel => "ps_5_0"@,
    }
}

/// Debug builds keep debug information and switch optimisation off;
/// release builds set no flag.
pub open spec fn compile_flags_for(debug: bool) -> CompileFlags {
    CompileFlags { debug_info: debug, skip_optimization: debug }
}

/// The request that compiles the file at `path` for `stage`.
pub open spec fn compile_request_for(
    stage: ShaderStage,
    path: Seq<char>,
    debug: bool,
) -> CompileRequestView {
    CompileRequestView {
        stage,
        source_path: wide_terminated(utf16_encode(path)),
        entry_point: encode_utf8(entry_point_name(stage)).push(0u8),
        target_profile: encode_utf8(target_profile_name(stage)).push(0u8),
        flags: compile_flags_for(debug),
    }
}

/// What the compiler's answer amounts to: the bytecode on success, and on
/// failure the compiler's own messages, read as a C string.
pub open spec fn compile_result(stage: ShaderStage, outcome: CompileOutcomeView) -> Result<
    Seq<u8>,
    ShaderErrorView,
> {
    let status = outcome.status;
    if status >= 0 {
        match outcome.bytecode {
            Some(bytecode) => Ok(bytecode),
            None => Err(ShaderErrorView::MissingBytecode { stage }),
        }
    } else {
        match outcome.diagnostics {
            None => Err(ShaderErrorView::MissingDiagnostic { stage, status }),
            Some(blob) => if valid_utf8(c_str_prefix(blob)) {
                Err(
                    ShaderErrorView::Compilation {
                        stage,
                        status,
                        diagnostic: decode_utf8(c_str_prefix(blob)),
                    },
                )
            } else {
                Err(ShaderErrorView::UnreadableDiagnostic { stage, status })
            },
        }
    }
}

/// The stage whose shader could not be made.
pub open spec fn stage_of_error(error: ShaderErrorView) -> ShaderStage {
    match error {
        ShaderErrorView::InvalidPath { stage, .. } => stage,
        ShaderErrorView::MissingBytecode { stage } => stage,
        ShaderErrorView::MissingDiagnostic { stage, .. } => stage,
        ShaderErrorView::UnreadableDiagnostic { stage, .. } => stage,
        ShaderErrorView::Compilation { stage, .. } => stage,
        ShaderErrorView::Creation { stage } => stage,
    }
}

/// The message that names the operation that failed.
pub open spec fn shader_error_text(error: ShaderErrorView) -> Seq<char> {
    match error {
        ShaderErrorView::InvalidPath { .. } => "Failed to convert String to U16CString."@,
        ShaderErrorView::MissingDiagnostic { .. } => "Error Blob was Null"@,
        ShaderErrorView::UnreadableDiagnostic { .. } => "Failed to convert CString to String."@,
        ShaderErrorView::MissingBytecode { stage } => compile_failure_text(stage),
        ShaderErrorView::Compilation { stage, .. } => compile_failure_text(stage),
        ShaderErrorView::Creation { stage } => create_failure_text(stage),
    }
}

/// The message for a stage whose source did not compile.
pub open spec fn compile_failure_text(stage: ShaderStage) -> Seq<char> {
    match stage {
        ShaderStage::Vertex => "Failed to compile vertex shader."@,
        ShaderStage::Pixel => "Failed to compile pixel shader."@,
    }
}

/// The message for a stage whose bytecode the device refused.
pub open spec fn create_failure_text(stage: ShaderStage) -> Seq<char> {
    match stage {
        ShaderStage::Vertex => "Failed to create vertex shader."@,
        ShaderStage::Pixel => "Failed to create pixel shader."@,
    }
}

/// The compiler's own messages, where the error carries them.
pub open spec fn diagnostic_of(error: ShaderErrorView) -> Option<Seq<char>> {
    match error {
        ShaderErrorView::Compilation { diagnostic, .. } => Some(diagnostic),
        _ => None,
    }
}

impl ShaderStage {
    /// The entry point the compiler is told to look for.
    pub fn entry_point(self) -> (name: &'static str)
        ensures
            name@ == entry_point_name(self),
    {
        match self {
            ShaderStage::Vertex => "vs_main",
            ShaderStage::Pixel => "ps_main",
        }
    }

    /// The profile the compiler is told to target.
    pub fn target_profile(self) -> (name: &'static str)
        ensures
            name@ == target_profile_name(self),
    {
        match self {
            ShaderStage::Vertex => "vs_5_0",
            ShaderStage::Pixel => "ps_5_0",
        }
    }

    /// The message for this stage when its source did not compile.
    pub fn compile_failure_message(self) -> (message: &'static str)
        ensures
            message@ == compile_failure_text(self),
    {
        match self {
            ShaderStage::Vertex => "Failed to compile vertex shader.",
            ShaderStage::Pixel => "Failed to compile pixel shader.",
        }
    }

    /// The message for this stage when the device refused its bytecode.
    pub fn create_failure_message(self) -> (message: &'static str)
        ensures
            message@ == create_failure_text(self),
    {
        match self {
            ShaderStage::Vertex => "Failed to create vertex shader.",
            ShaderStage::Pixel => "Failed to create pixel shader.",
        }
    }
}

impl ShaderError {
    /// The stage whose shader could not be made.
    pub fn stage(&self) -> (stage: ShaderStage)
        ensures
            stage == stage_of_error(self@),
    {
        match self {
            ShaderError::InvalidPath { stage, .. } => *stage,
            ShaderError::MissingBytecode { stage } => *stage,
            ShaderError::MissingDiagnostic { stage, .. } => *stage,
            ShaderError::UnreadableDiagnostic { stage, .. } => *stage,
            ShaderError::Compilation { stage, .. } => *stage,
            ShaderError::Creation { stage } => *stage,
        }
    }

    /// The message that names the operation that failed.
    pub fn message(&self) -> (message: &'static str)
        ensures
            message@ == shader_error_text(self@),
    {
        match self {
            ShaderError::InvalidPath { .. } => "Failed to convert String to U16CString.",
            ShaderError::MissingDiagnostic { .. } => "Error Blob was Null",
            ShaderError::UnreadableDiagnostic { .. } => "Failed to convert CString to String.",
            ShaderError::MissingBytecode { stage } => stage.compile_failure_message(),
            ShaderError::Compilation { stage, .. } => stage.compile_failure_message(),
            ShaderError::Creation { stage } => stage.create_failure_message(),
        }
    }

    /// The compiler's own messages, where this error carries them.
    pub fn diagnostic(&self) -> (text: Option<&str>)
        ensures
            match text {
                Some(t) => diagnostic_of(self@) == Some(t@),
                None => diagnostic_of(self@) is None,
            },
    {
        match self {
            ShaderError::Compilation { diagnostic, .. } => Some(diagnostic.as_str()),
            _ => None,
        }
    }
}

impl CompileFlags {
    /// The flags of a debug or a release build.
    pub fn new(debug: bool) -> (flags: CompileFlags)
        ensures
            flags == compile_flags_for(debug),
    {
        CompileFlags { debug_info: debug, skip_optimization: debug }
    }
}

impl ShaderType {
    /// The stage this source is compiled for.
    pub open spec fn stage_of(self) -> ShaderStage {
        match self {
            ShaderType::Vertex(_) => ShaderStage::Vertex,
            ShaderType::Pixel(_) => ShaderStage::Pixel,
        }
    }

    /// The path of the source file.
    pub open spec fn path_of(self) -> Seq<char> {
        match self {
            ShaderType::Vertex(path) => path@,
            ShaderType::Pixel(path) => path@,
        }
    }

    /// The stage this source is compiled for.
    pub fn stage(&self) -> (stage: ShaderStage)
        ensures
            stage == self.stage_of(),
    {
        match self {
            ShaderType::Vertex(_) => ShaderStage::Vertex,
            ShaderType::Pixel(_) => ShaderStage::Pixel,
        }
    }

    /// The path of the source file.
    pub fn path(&self) -> (path: &str)
        ensures
            path@ == self.path_of(),
    {
        match self {
            ShaderType::Vertex(path) => path.as_str(),
            ShaderType::Pixel(path) => path.as_str(),
        }
    }

    /// The request to hand to the compiler, or `InvalidPath` where the path
    /// cannot be a C string.
    pub fn compile_request(&self, debug: bool) -> (r: Result<CompileRequest, ShaderError>)
        ensures
            r is Ok <==> !has_interior_nul(self.path_of(), '\0'),
            r matches Ok(request) ==> request@ == compile_request_for(
                self.stage_of(),
                self.path_of(),
                debug,
            ),
            r matches Err(error) ==> error@ == (ShaderErrorView::InvalidPath {
                stage: self.stage_of(),
                nul_position: nul_unit_position(self.path_of()) as usize,
            }),
    {
        let stage = self.stage();
        match encode_wide_path(self.path()) {
            Ok(source_path) => Ok(
                CompileRequest {
                    stage,
                    source_path,
                    entry_point: nul_terminated(stage.entry_point()),
                    target_profile: nul_terminated(stage.target_profile()),
                    flags: CompileFlags::new(debug),
                },
            ),
            Err(nul_position) => Err(ShaderError::InvalidPath { stage, nul_position }),
        }
    }
}

/// Reads the compiler's answer for `stage`: the bytecode where it
/// succeeded, else the error that carries its messages.
pub fn finish_compile(stage: ShaderStage, outcome: CompileOutcome) -> (r: Result<
    Vec<u8>,
    ShaderError,
>)
    ensures
        match r {
            Ok(bytecode) => compile_result(stage, outcome@) == Ok::<Seq<u8>, ShaderErrorView>(
                bytecode@,
            ),
            Err(error) => compile_result(stage, outcome@) == Err::<Seq<u8>, ShaderErrorView>(
                error@,
            ),
        },
{
    let status = outcome.status;
    if status >= 0 {
        match outcome.bytecode {
            Some(bytecode) => Ok(bytecode),
            None => Err(ShaderError::MissingBytecode { stage }),
        }
    } else {
        match outcome.diagnostics {
            None => Err(ShaderError::MissingDiagnostic { stage, status }),
            Some(blob) => match c_str_text(&blob) {
                Some(diagnostic) => Err(ShaderError::Compilation { stage, status, diagnostic }),
                None => Err(ShaderError::UnreadableDiagnostic { stage, status }),
            },
        }
    }
}

/// The names handed to the compiler are C strings: seven letters for an
/// entry point, six for a profile, then the NUL.
pub proof fn lemma_stage_names_are_c_strings(stage: ShaderStage)
    ensures
        is_c_string(encode_utf8(entry_point_name(stage)).push(0u8), 0u8),
        is_c_string(encode_utf8(target_profile_name(stage)).push(0u8), 0u8),
        encode_utf8(entry_point_name(stage)).len() == 7,
        encode_utf8(target_profile_name(stage)).len() == 6,
{
    reveal_strlit("vs_main");
    reveal_strlit("ps_main");
    reveal_strlit("vs_5_0");
    reveal_strlit("ps_5_0");
    let entry = entry_point_name(stage);
    let profile = target_profile_name(stage);
    assert(is_ascii_chars(entry));
    assert(is_ascii_chars(profile));
    is_ascii_chars_encode_utf8(entry);
    is_ascii_chars_encode_utf8(profile);
    lemma_nul_terminated_is_c_string(encode_utf8(entry));
    lemma_nul_terminated_is_c_string(encode_utf8(profile));
}

/// Every string of a compile request is a C string, so each can be handed
/// to the platform by the address of its first element.
pub proof fn lemma_compile_request_c_strings(stage: ShaderStage, path: Seq<char>, debug: bool)
    requires
        !has_interior_nul(path, '\0'),
    ensures
        is_c_string(compile_request_for(stage, path, debug).source_path, 0u16),
        is_c_string(compile_request_for(stage, path, debug).entry_point, 0u8),
        is_c_string(compile_request_for(stage, path, debug).target_profile, 0u8),
{
    lemma_utf16_interior_nul(path);
    lemma_wide_terminated_is_c_string(utf16_encode(path));
    lemma_stage_names_are_c_strings(stage);
}

/// Begins the making of the vertex shader from the source file at
/// `shader_path`: the request that compiles its `vs_main` entry point.
pub fn create_vertex_shader(shader_path: &str, debug: bool) -> (r: Result<
    CompileRequest,
    ShaderError,
>)
    ensures
        r is Ok <==> !has_interior_nul(shader_path@, '\0'),
        r matches Ok(request) ==> request@ == compile_request_for(
            ShaderStage::Vertex,
            shader_path@,
            debug,
        ),
        r matches Err(error) ==> error@ == (ShaderErrorView::InvalidPath {
            stage: ShaderStage::Vertex,
            nul_position: nul_unit_position(shader_path@) as usize,
        }),
{
    ShaderType::Vertex(shader_path.to_owned()).compile_request(debug)
}

/// Begins the making of the pixel shader from the source file at
/// `shader_path`: the request that compiles its `ps_main` entry point.
pub fn create_pixel_shader(shader_path: &str, debug: bool) -> (r: Result<
    CompileRequest,
    ShaderError,
>)
    ensures
        r is Ok <==> !has_interior_nul(shader_path@, '\0'),
        r matches Ok(request) ==> request@ == compile_request_for(
            ShaderStage::Pixel,
            shader_path@,
            debug,
        ),
        r matches Err(error) ==> error@ == (ShaderErrorView::InvalidPath {
            stage: ShaderStage::Pixel,
            nul_position: nul_unit_position(shader_path@) as usize,
        }),
{
    ShaderType::Pixel(shader_path.to_owned()).compile_request(debug)
}

} // verus!
