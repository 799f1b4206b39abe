//! The value types of the GVAS header, with their spec-level models.

use vstd::prelude::*;

verus! {

/// A 16-byte Unreal GUID, read from the wire as four consecutive
/// little-endian `u32` values.  Equality is component-wise.
#[derive(Debug, Clone, Copy, PartialEq, Eq, Structural)]
pub struct FGuid {
    pub a: u32,
    pub b: u32,
    pub c: u32,
    pub d: u32,
}

impl FGuid {
    /// Packs the four components.
    pub fn new(a: u32, b: u32, c: u32, d: u32) -> (r: FGuid)
        ensures
            r == (FGuid { a, b, c, d }),
    {
        FGuid { a, b, c, d }
    }
}

/// Engine version record of the header:
/// `(u16 major, u16 minor, u16 patch, u32 change_list, UEString branch)`.
#[derive(Debug, Clone, PartialEq, Eq)]
pub struct FEngineVersion {
    pub major: u16,
    pub minor: u16,
    pub patch: u16,
    pub change_list: u32,
    pub branch: String,
}

/// Spec-level model of [`FEngineVersion`]: the branch as a character
/// sequence.
pub ghost struct EngineVersionModel {
    pub major: u16,
    pub minor: u16,
    pub patch: u16,
    pub change_list: u32,
    pub branch: Seq<char>,
}

impl View for FEngineVersion {
    type V = EngineVersionModel;

    open spec fn view(&self) -> EngineVersionModel {
        EngineVersionModel {
            major: self.major,
            minor: self.minor,
            patch: self.patch,
            change_list: self.change_list,
            branch: self.branch@,
        }
    }
}

/// A custom-version entry of the header: `(FGuid key, i32 version)`.
#[derive(Debug, Clone, Copy, PartialEq, Eq, Structural)]
pub struct FCustomVersion {
    pub key: FGuid,
    pub version: i32,
}

/// The fixed-layout prologue of a GVAS file, preserved verbatim: no field is
/// validated against expected magic values here.
#[derive(Debug, Clone, PartialEq, Eq)]
pub struct GvasHeader {
    pub file_type_tag: i32,
    pub save_game_file_version: i32,
    pub package_file_ue4_version: i32,
    pub engine_version: FEngineVersion,
    pub custom_version_format: i32,
    pub custom_versions: Vec<FCustomVersion>,
    pub save_game_class_name: String,
}

/// Spec-level model of [`GvasHeader`]: strings as character sequences and
/// the custom versions as a mathematical sequence.
pub ghost struct HeaderModel {
    pub file_type_tag: i32,
    pub save_game_file_version: i32,
    pub package_file_ue4_version: i32,
    pub engine_version: EngineVersionModel,
    pub custom_version_format: i32,
    pub custom_versions: Seq<FCustomVersion>,
    pub save_game_class_name: Seq<char>,
}

impl View for GvasHeader {
    type V = HeaderModel;

    open spec fn view(&self) -> HeaderModel {
        HeaderModel {
            file_type_tag: self.file_type_tag,
            save_game_file_version: self.save_game_file_version,
            package_file_ue4_version: self.package_file_ue4_version,
            engine_version: self.engine_version@,
            custom_version_format: self.custom_version_format,
            custom_versions: self.custom_versions@,
            save_game_class_name: self.save_game_class_name@,
        }
    }
}

} // verus!
