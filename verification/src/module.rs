//! Module description: what a dynamic-library file is built for, read from
//! the headers at the front of the file.
//!
//! A library image starts with a 64-byte header marked `MZ`, whose last four
//! bytes say where the image header lies. The image header is marked
//! `PE\0\0`; twenty bytes of file header follow it, then the optional
//! header, which starts with a two-byte magic number. The machine, the
//! characteristics and the magic number are all that a description needs.
//! Numbers are stored least significant byte first.

use vstd::prelude::*;
use crate::platform::{Architecture, Platform, PointerWidth};

verus! {

/// Length of the header at the very front of an image.
pub const DOS_HEADER_LEN: usize = 64;

/// Where, in that header, the offset of the image header is stored.
pub const IMAGE_OFFSET_FIELD: usize = 60;

/// Bytes from the start of the image header to the end of the magic number.
pub const IMAGE_HEADER_SPAN: u64 = 26;

/// Machine numbers of the file header.
pub const MACHINE_I386: u16 = 0x014c;

pub const MACHINE_AMD64: u16 = 0x8664;

pub const MACHINE_ARM: u16 = 0x01c0;

pub const MACHINE_THUMB: u16 = 0x01c2;

pub const MACHINE_ARMNT: u16 = 0x01c4;

pub const MACHINE_ARM64: u16 = 0xaa64;

/// Magic number of an optional header with 32-bit addresses.
pub const MAGIC_PE32: u16 = 0x010b;

/// Magic number of an optional header with 64-bit addresses.
pub const MAGIC_PE32_PLUS: u16 = 0x020b;

/// Characteristic of a file that can be run.
pub const FLAG_EXECUTABLE_IMAGE: u16 = 0x0002;

/// Characteristic of a dynamic library.
pub const FLAG_DLL: u16 = 0x2000;

/// Why a file cannot be described as a module.
#[derive(Clone, Copy, Debug, PartialEq, Eq, Structural)]
pub enum ModuleError {
    /// There is no file at the path.
    NotFound,
    /// The file is not a dynamic-library image.
    NotAModule,
    /// The file is a dynamic-library image for a machine that is not
    /// supported.
    UnsupportedArchitecture,
}

/// What was found at a module's path: nothing, or a file of `size_bytes`
/// bytes whose first bytes are `header`. The header may stop short of the
/// file's end; it must reach the end of the magic number for the file to be
/// described.
#[derive(Debug, PartialEq, Eq)]
pub enum FileProbe {
    Missing,
    Found { size_bytes: u64, header: Vec<u8> },
}

/// A probe as a mathematical value.
pub enum ProbeView {
    Missing,
    Found { size_bytes: u64, header: Seq<u8> },
}

impl View for FileProbe {
    type V = ProbeView;

    open spec fn view(&self) -> ProbeView {
        match self {
            FileProbe::Missing => ProbeView::Missing,
            FileProbe::Found { size_bytes, header } => ProbeView::Found {
                size_bytes: *size_bytes,
                header: header@,
            },
        }
    }
}

/// The fields of an image's headers that a description rests on.
#[derive(Clone, Copy, Debug, PartialEq, Eq, Structural)]
pub struct ImageHeader {
    pub machine: u16,
    pub optional_header_size: u16,
    pub characteristics: u16,
    pub magic: u16,
}

/// The module to inject: where its file is, what it is built for and how
/// large it is. A descriptor comes from `describe` and does not change, so
/// every descriptor is sound: see `ModuleView::is_sound`.
#[derive(Debug, PartialEq, Eq)]
pub struct ModuleDescriptor {
    file_path: String,
    architecture: Architecture,
    pointer_width: PointerWidth,
    size_bytes: u64,
}

/// A module descriptor as a mathematical value.
pub struct ModuleView {
    pub file_path: Seq<char>,
    pub architecture: Architecture,
    pub pointer_width: PointerWidth,
    pub size_bytes: u64,
}

impl ModuleView {
    /// The platform the module is built for.
    pub open spec fn platform(self) -> Platform {
        Platform { architecture: self.architecture, pointer_width: self.pointer_width }
    }

    /// A descriptor is sound when its instruction set is a known one and its
    /// pointer width is that instruction set's own.
    pub open spec fn is_sound(self) -> bool {
        self.architecture.native_width_spec() == Some(self.pointer_width)
    }
}

impl View for ModuleDescriptor {
    type V = ModuleView;

    closed spec fn view(&self) -> ModuleView {
        ModuleView {
            file_path: self.file_path@,
            architecture: self.architecture,
            pointer_width: self.pointer_width,
            size_bytes: self.size_bytes,
        }
    }
}

impl Clone for ModuleDescriptor {
    fn clone(&self) -> (copy: Self)
        ensures
            copy == *self,
    {
        proof {
            use_type_invariant(self);
        }
        ModuleDescriptor {
            file_path: self.file_path.clone(),
            architecture: self.architecture,
            pointer_width: self.pointer_width,
            size_bytes: self.size_bytes,
        }
    }
}

impl ModuleDescriptor {
    #[verifier::type_invariant]
    spec fn sound(self) -> bool {
        self@.is_sound()
    }

    /// Path of the module's file.
    pub fn file_path(&self) -> (path: &str)
        ensures
            path@ == self@.file_path,
    {
        self.file_path.as_str()
    }

    /// Instruction set the module is built for: never an unknown one.
    pub fn architecture(&self) -> (architecture: Architecture)
        ensures
            architecture == self@.architecture,
            architecture != Architecture::Unknown,
            self@.is_sound(),
    {
        proof {
            use_type_invariant(self);
        }
        self.architecture
    }

    /// Pointer width the module is built for: that of its instruction set.
    pub fn pointer_width(&self) -> (width: PointerWidth)
        ensures
            width == self@.pointer_width,
            self@.architecture.native_width_spec() == Some(width),
            self@.is_sound(),
    {
        proof {
            use_type_invariant(self);
        }
        self.pointer_width
    }

    /// Size of the module's file, in bytes.
    pub fn size_bytes(&self) -> (size: u64)
        ensures
            size == self@.size_bytes,
    {
        self.size_bytes
    }

    /// The platform the module is built for.
    pub fn platform(&self) -> (platform: Platform)
        ensures
            platform == self@.platform(),
            self@.is_sound(),
    {
        proof {
            use_type_invariant(self);
        }
        Platform { architecture: self.architecture, pointer_width: self.pointer_width }
    }
}

/// The 16-bit number stored at `at`.
pub open spec fn le16(bytes: Seq<u8>, at: int) -> int {
    bytes[at] as int + 256 * (bytes[at + 1] as int)
}

/// The 32-bit number stored at `at`.
pub open spec fn le32(bytes: Seq<u8>, at: int) -> int {
    le16(bytes, at) + 65536 * le16(bytes, at + 2)
}

/// Whether the bytes start with the header marked `MZ`, complete.
pub open spec fn has_dos_header(bytes: Seq<u8>) -> bool {
    bytes.len() >= DOS_HEADER_LEN && bytes[0] == 0x4d && bytes[1] == 0x5a
}

/// Where the image header starts, as the first header says.
pub open spec fn image_offset(bytes: Seq<u8>) -> int {
    le32(bytes, IMAGE_OFFSET_FIELD as int)
}

/// How many bytes from the start of the file a description reads.
pub open spec fn headers_end(bytes: Seq<u8>) -> int {
    image_offset(bytes) + IMAGE_HEADER_SPAN
}

/// Whether the bytes hold both headers as far as the magic number, with the
/// image header marked `PE\0\0`.
pub open spec fn has_image_header(bytes: Seq<u8>) -> bool {
    let at = image_offset(bytes);
    &&& has_dos_header(bytes)
    &&& headers_end(bytes) <= bytes.len()
    &&& bytes[at] == 0x50
    &&& bytes[at + 1] == 0x45
    &&& bytes[at + 2] == 0
    &&& bytes[at + 3] == 0
}

/// The fields of the headers, where `has_image_header` holds.
pub open spec fn image_header(bytes: Seq<u8>) -> ImageHeader {
    let at = image_offset(bytes);
    ImageHeader {
        machine: le16(bytes, at + 4) as u16,
        optional_header_size: le16(bytes, at + 20) as u16,
        characteristics: le16(bytes, at + 22) as u16,
        magic: le16(bytes, at + 24) as u16,
    }
}

/// Whether all bits of `flag` are set in `bits`.
pub open spec fn has_flag(bits: u16, flag: u16) -> bool {
    bits & flag == flag
}

/// The instruction set a machine number stands for, if it is a supported
/// one.
pub open spec fn machine_architecture_spec(machine: u16) -> Option<Architecture> {
    if machine == MACHINE_I386 {
        Some(Architecture::X86)
    } else if machine == MACHINE_AMD64 {
        Some(Architecture::X64)
    } else if machine == MACHINE_ARM || machine == MACHINE_THUMB || machine == MACHINE_ARMNT {
        Some(Architecture::Arm)
    } else if machine == MACHINE_ARM64 {
        Some(Architecture::Arm64)
    } else {
        None
    }
}

/// The pointer width a magic number stands for.
pub open spec fn magic_width_spec(magic: u16) -> Option<PointerWidth> {
    if magic == MAGIC_PE32 {
        Some(PointerWidth::Bits32)
    } else if magic == MAGIC_PE32_PLUS {
        Some(PointerWidth::Bits64)
    } else {
        None
    }
}

impl ImageHeader {
    /// Whether the header is that of a dynamic library that can be loaded:
    /// marked as a library and as runnable, with an optional header that
    /// holds a known magic number.
    pub open spec fn is_library(self) -> bool {
        &&& has_flag(self.characteristics, FLAG_DLL)
        &&& has_flag(self.characteristics, FLAG_EXECUTABLE_IMAGE)
        &&& self.optional_header_size >= 2
        &&& magic_width_spec(self.magic) is Some
    }

    /// What the image is built for.
    ///
    /// A header that is not a library's is `NotAModule`. A library for a
    /// machine that is not supported is `UnsupportedArchitecture`. A library
    /// whose magic number gives another pointer width than its machine has
    /// contradicts itself and is `NotAModule`.
    pub open spec fn platform_spec(self) -> Result<Platform, ModuleError> {
        if !self.is_library() {
            Err(ModuleError::NotAModule)
        } else {
            match machine_architecture_spec(self.machine) {
                None => Err(ModuleError::UnsupportedArchitecture),
                Some(architecture) => if architecture.native_width_spec() == magic_width_spec(
                    self.magic,
                ) {
                    Ok(Platform { architecture, pointer_width: magic_width_spec(self.magic)->0 })
                } else {
                    Err(ModuleError::NotAModule)
                },
            }
        }
    }

    /// What the image is built for, or why it is no module.
    pub fn platform(&self) -> (platform: Result<Platform, ModuleError>)
        ensures
            platform == self.platform_spec(),
    {
        let library = self.characteristics & FLAG_DLL == FLAG_DLL && self.characteristics
            & FLAG_EXECUTABLE_IMAGE == FLAG_EXECUTABLE_IMAGE && self.optional_header_size >= 2;
        if !library {
            return Err(ModuleError::NotAModule);
        }
        let width = match magic_width(self.magic) {
            Some(width) => width,
            None => {
                return Err(ModuleError::NotAModule);
            },
        };
        match machine_architecture(self.machine) {
            None => Err(ModuleError::UnsupportedArchitecture),
            Some(architecture) => {
                match architecture.native_width() {
                    Some(native) => {
                        if native == width {
                            Ok(Platform { architecture, pointer_width: width })
                        } else {
                            Err(ModuleError::NotAModule)
                        }
                    },
                    None => Err(ModuleError::NotAModule),
                }
            },
        }
    }
}

/// The instruction set a machine number stands for, if it is a supported
/// one.
#[verifier::when_used_as_spec(machine_architecture_spec)]
pub fn machine_architecture(machine: u16) -> (architecture: Option<Architecture>)
    ensures
        architecture == machine_architecture_spec(machine),
{
    if machine == MACHINE_I386 {
        Some(Architecture::X86)
    } else if machine == MACHINE_AMD64 {
        Some(Architecture::X64)
    } else if machine == MACHINE_ARM || machine == MACHINE_THUMB || machine == MACHINE_ARMNT {
        Some(Architecture::Arm)
    } else if machine == MACHINE_ARM64 {
        Some(Architecture::Arm64)
    } else {
        None
    }
}

/// The pointer width a magic number stands for.
#[verifier::when_used_as_spec(magic_width_spec)]
pub fn magic_width(magic: u16) -> (width: Option<PointerWidth>)
    ensures
        width == magic_width_spec(magic),
{
    if magic == MAGIC_PE32 {
        Some(PointerWidth::Bits32)
    } else if magic == MAGIC_PE32_PLUS {
        Some(PointerWidth::Bits64)
    } else {
        None
    }
}

fn read_u16(bytes: &[u8], at: usize) -> (value: u16)
    requires
        at + 2 <= bytes.len(),
    ensures
        value == le16(bytes@, at as int),
{
    let low: u16 = bytes[at] as u16;
    let high: u16 = bytes[at + 1] as u16;
    low + 256 * high
}

fn read_u32(bytes: &[u8], at: usize) -> (value: u32)
    requires
        at + 4 <= bytes.len(),
    ensures
        value == le32(bytes@, at as int),
{
    let low: u32 = read_u16(bytes, at) as u32;
    let high: u32 = read_u16(bytes, at + 2) as u32;
    low + 65536 * high
}

/// How many bytes from the start of a file `describe` needs, told from the
/// file's first 64 bytes; nothing where those do not start an image.
pub fn needed_prefix_len(front: &[u8]) -> (length: Option<u64>)
    ensures
        length is Some <==> has_dos_header(front@),
        length matches Some(n) ==> n == headers_end(front@),
{
    if front.len() < DOS_HEADER_LEN || front[0] != 0x4d || front[1] != 0x5a {
        return None;
    }
    let offset: u64 = read_u32(front, IMAGE_OFFSET_FIELD) as u64;
    Some(offset + IMAGE_HEADER_SPAN)
}

/// Reads the fields that a description rests on from the front of a file.
pub fn read_image_header(bytes: &[u8]) -> (header: Option<ImageHeader>)
    ensures
        header is Some <==> has_image_header(bytes@),
        header matches Some(h) ==> h == image_header(bytes@),
{
    let end: u64 = match needed_prefix_len(bytes) {
        Some(end) => end,
        None => {
            return None;
        },
    };
    if end > bytes.len() as u64 {
        return None;
    }
    let at: usize = (end - IMAGE_HEADER_SPAN) as usize;
    if bytes[at] != 0x50 || bytes[at + 1] != 0x45 || bytes[at + 2] != 0 || bytes[at + 3] != 0 {
        return None;
    }
    Some(
        ImageHeader {
            machine: read_u16(bytes, at + 4),
            optional_header_size: read_u16(bytes, at + 20),
            characteristics: read_u16(bytes, at + 22),
            magic: read_u16(bytes, at + 24),
        },
    )
}

/// What the file behind a probe is built for, or why it is no module.
///
/// No file is `NotFound`. A file whose first bytes do not hold the two
/// headers, or that is shorter than its headers, is `NotAModule`. Otherwise
/// the headers decide, as `ImageHeader::platform_spec` says.
pub open spec fn probe_platform(probe: ProbeView) -> Result<Platform, ModuleError> {
    match probe {
        ProbeView::Missing => Err(ModuleError::NotFound),
        ProbeView::Found { size_bytes, header } => {
            if !has_image_header(header) || size_bytes < headers_end(header) {
                Err(ModuleError::NotAModule)
            } else {
                image_header(header).platform_spec()
            }
        },
    }
}

/// Describes the module at `file_path` from what was found there.
///
/// The descriptor keeps the path and the file's size as they were given,
/// and takes instruction set and pointer width from the headers. Only the
/// headers are read: nothing of the module is loaded or run.
pub fn describe(file_path: &str, probe: &FileProbe) -> (described: Result<
    ModuleDescriptor,
    ModuleError,
>)
    ensures
        match described {
            Ok(module) => {
                &&& probe@ matches ProbeView::Found { size_bytes, .. }
                &&& probe_platform(probe@) == Ok::<Platform, ModuleError>(module@.platform())
                &&& module@.file_path == file_path@
                &&& module@.size_bytes == size_bytes
                &&& module@.is_sound()
            },
            Err(e) => probe_platform(probe@) == Err::<Platform, ModuleError>(e),
        },
{
    match probe {
        FileProbe::Missing => Err(ModuleError::NotFound),
        FileProbe::Found { size_bytes, header } => {
            let fields = match read_image_header(header.as_slice()) {
                Some(fields) => fields,
                None => {
                    return Err(ModuleError::NotAModule);
                },
            };
            let end: u64 = match needed_prefix_len(header.as_slice()) {
                Some(end) => end,
                None => {
                    return Err(ModuleError::NotAModule);
                },
            };
            if *size_bytes < end {
                return Err(ModuleError::NotAModule);
            }
            match fields.platform() {
                Ok(platform) => Ok(
                    ModuleDescriptor {
                        file_path: file_path.to_owned(),
                        architecture: platform.architecture,
                        pointer_width: platform.pointer_width,
                        size_bytes: *size_bytes,
                    },
                ),
                Err(e) => Err(e),
            }
        },
    }
}

/// How many leading bytes of a file a description reads: the first header,
/// and on to the end of the magic number where that lies further on.
pub open spec fn bytes_read(bytes: Seq<u8>) -> int {
    if headers_end(bytes) > DOS_HEADER_LEN {
        headers_end(bytes)
    } else {
        DOS_HEADER_LEN as int
    }
}

/// Only the headers are read: two files of one size that agree in the bytes
/// read are described alike, whatever else they hold.
pub proof fn law_only_the_headers_are_read(size_bytes: u64, a: Seq<u8>, b: Seq<u8>)
    requires
        has_dos_header(a),
        bytes_read(a) <= a.len(),
        bytes_read(a) <= b.len(),
        forall|i: int| 0 <= i < bytes_read(a) ==> a[i] == b[i],
    ensures
        probe_platform(ProbeView::Found { size_bytes, header: a }) == probe_platform(
            ProbeView::Found { size_bytes, header: b },
        ),
{
    assert(image_offset(a) == image_offset(b));
    assert(has_image_header(a) == has_image_header(b));
    if has_image_header(a) {
        assert(image_header(a) == image_header(b));
    }
}

/// Every file that is described has a sound descriptor: a known
/// instruction set, with that instruction set's own pointer width.
pub proof fn law_described_modules_are_sound(probe: ProbeView)
    requires
        probe_platform(probe) is Ok,
    ensures
        probe_platform(probe)->Ok_0.architecture != Architecture::Unknown,
        probe_platform(probe)->Ok_0.architecture.native_width_spec() == Some(
            probe_platform(probe)->Ok_0.pointer_width,
        ),
{
}

} // verus!
