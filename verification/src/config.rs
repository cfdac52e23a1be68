use vstd::prelude::*;

use crate::errors::CliError;

verus! {

/// Lowest valid program slot number on the device.
pub const SLOT_MIN: u8 = 1;

/// Highest valid program slot number on the device.
pub const SLOT_MAX: u8 = 8;

/// Display name used when neither the CLI nor the package provides one.
pub const DEFAULT_NAME: &'static str = "cargo-v5";

/// Program description used when neither the CLI nor the package provides
/// one.
pub const DEFAULT_DESCRIPTION: &'static str = "Uploaded with cargo-v5.";

/// The fixed program-type label stamped on every upload.
pub const PROGRAM_TYPE: &'static str = "Rust";

/// A program icon the device can display, chosen by identifier.
#[derive(Debug, Clone, Copy, PartialEq, Eq, Structural)]
pub enum ProgramIcon {
    VexCodingStudio,
    CoolX,
    QuestionMark,
    Pizza,
    Clawbot,
    Robot,
    PowerButton,
    Planets,
    Alien,
    UfoAlien,
    CupInField,
    CupAndBall,
    Matlab,
    Python,
    BlocksLogo,
    VexLogo,
}

/// Icon used when neither the CLI nor the project metadata names one.
pub open spec fn spec_default_icon() -> ProgramIcon {
    ProgramIcon::QuestionMark
}

/// Maps an icon identifier to its icon; unrecognized identifiers map to
/// nothing and are rejected by the resolver.
pub open spec fn spec_parse_icon(id: Seq<char>) -> Option<ProgramIcon> {
    if id == "vex-coding-studio"@ {
        Some(ProgramIcon::VexCodingStudio)
    } else if id == "cool-x"@ {
        Some(ProgramIcon::CoolX)
    } else if id == "question-mark"@ {
        Some(ProgramIcon::QuestionMark)
    } else if id == "pizza"@ {
        Some(ProgramIcon::Pizza)
    } else if id == "clawbot"@ {
        Some(ProgramIcon::Clawbot)
    } else if id == "robot"@ {
        Some(ProgramIcon::Robot)
    } else if id == "power-button"@ {
        Some(ProgramIcon::PowerButton)
    } else if id == "planets"@ {
        Some(ProgramIcon::Planets)
    } else if id == "alien"@ {
        Some(ProgramIcon::Alien)
    } else if id == "ufo"@ {
        Some(ProgramIcon::UfoAlien)
    } else if id == "cup-field"@ {
        Some(ProgramIcon::CupInField)
    } else if id == "cup-ball"@ {
        Some(ProgramIcon::CupAndBall)
    } else if id == "matlab"@ {
        Some(ProgramIcon::Matlab)
    } else if id == "python"@ {
        Some(ProgramIcon::Python)
    } else if id == "blocks"@ {
        Some(ProgramIcon::BlocksLogo)
    } else if id == "vex"@ {
        Some(ProgramIcon::VexLogo)
    } else {
        None
    }
}

/// Parses an icon identifier.
pub fn parse_icon(id: &String) -> (r: Option<ProgramIcon>)
    ensures
        r == spec_parse_icon(id@),
{
    if *id == "vex-coding-studio".to_owned() {
        Some(ProgramIcon::VexCodingStudio)
    } else if *id == "cool-x".to_owned() {
        Some(ProgramIcon::CoolX)
    } else if *id == "question-mark".to_owned() {
        Some(ProgramIcon::QuestionMark)
    } else if *id == "pizza".to_owned() {
        Some(ProgramIcon::Pizza)
    } else if *id == "clawbot".to_owned() {
        Some(ProgramIcon::Clawbot)
    } else if *id == "robot".to_owned() {
        Some(ProgramIcon::Robot)
    } else if *id == "power-button".to_owned() {
        Some(ProgramIcon::PowerButton)
    } else if *id == "planets".to_owned() {
        Some(ProgramIcon::Planets)
    } else if *id == "alien".to_owned() {
        Some(ProgramIcon::Alien)
    } else if *id == "ufo".to_owned() {
        Some(ProgramIcon::UfoAlien)
    } else if *id == "cup-field".to_owned() {
        Some(ProgramIcon::CupInField)
    } else if *id == "cup-ball".to_owned() {
        Some(ProgramIcon::CupAndBall)
    } else if *id == "matlab".to_owned() {
        Some(ProgramIcon::Matlab)
    } else if *id == "python".to_owned() {
        Some(ProgramIcon::Python)
    } else if *id == "blocks".to_owned() {
        Some(ProgramIcon::BlocksLogo)
    } else if *id == "vex".to_owned() {
        Some(ProgramIcon::VexLogo)
    } else {
        None
    }
}

/// Raw upload options, as they arrive from the CLI: every field optional,
/// nothing resolved yet. Paths travel as raw bytes.
pub struct UploadOpts {
    /// Explicit artifact path (`--file`).
    pub file: Option<Vec<u8>>,
    /// Explicit slot number (`--slot`).
    pub slot: Option<u8>,
    /// Explicit program display name.
    pub name: Option<String>,
    /// Explicit program description.
    pub description: Option<String>,
    /// Explicit icon identifier.
    pub icon: Option<String>,
    /// Explicit `--uncompressed` flag; `Some(true)` disables compression.
    pub uncompressed: Option<bool>,
}

/// The fields of the discovered package descriptor that resolution reads.
pub struct PackageFields {
    /// The package's name.
    pub name: String,
    /// The package's description, if it declares one.
    pub description: Option<String>,
}

/// Structured per-project upload metadata, all fields optional.
pub struct UploadMetadata {
    /// Declared slot number.
    pub slot: Option<u8>,
    /// Declared icon identifier.
    pub icon: Option<String>,
    /// Declared compression preference.
    pub compress: Option<bool>,
}

/// What has to happen to obtain the uploadable artifact.
pub enum ArtifactPlan {
    /// The given path already names a final binary: use it as it is.
    UseProvided(Vec<u8>),
    /// The given path names an unprocessed artifact: convert it to a final
    /// binary first.
    Convert(Vec<u8>),
    /// No path was given: build the current project, then convert its
    /// output.
    BuildProject,
}

/// An action to take once the upload completes.
#[derive(Debug, Clone, Copy, PartialEq, Eq, Structural)]
pub enum AfterUpload {
    /// Leave the program alone.
    Nothing,
    /// Start the program.
    Run,
}

/// A fully resolved upload configuration, immutable once built.
pub struct UploadConfig {
    /// Path of the artifact to transfer, as raw bytes.
    pub artifact: Vec<u8>,
    /// Target slot, already validated to lie in `[SLOT_MIN, SLOT_MAX]`.
    pub slot: u8,
    /// Program display name.
    pub name: String,
    /// Program description.
    pub description: String,
    /// Program icon.
    pub icon: ProgramIcon,
    /// Fixed program-type label.
    pub program_type: String,
    /// Whether to compress the transfer.
    pub compress: bool,
}

impl UploadConfig {
    /// A resolved configuration is well formed when its slot passed range
    /// validation and it carries the fixed program-type label.
    pub open spec fn wf(self) -> bool {
        &&& spec_slot_in_range(self.slot)
        &&& self.program_type@ == PROGRAM_TYPE@
    }
}

/// Whether a slot number lies in the valid range.
pub open spec fn spec_slot_in_range(slot: u8) -> bool {
    SLOT_MIN <= slot <= SLOT_MAX
}

/// Range check applied to every resolved slot, from whichever source.
pub fn slot_in_range(slot: u8) -> (r: bool)
    ensures
        r == spec_slot_in_range(slot),
{
    SLOT_MIN <= slot && slot <= SLOT_MAX
}

/// The slot value resolution settles on, before range validation: the
/// explicit CLI value wins over the metadata value, which wins over the
/// interactively prompted value.
pub open spec fn spec_chosen_slot(
    explicit: Option<u8>,
    metadata: Option<u8>,
    prompted: Option<u8>,
) -> Option<u8> {
    if explicit is Some {
        explicit
    } else if metadata is Some {
        metadata
    } else {
        prompted
    }
}

/// What slot resolution returns: no candidate from any source is an error,
/// and a candidate outside the valid range is an error no matter which
/// source supplied it.
pub open spec fn spec_resolve_slot(
    explicit: Option<u8>,
    metadata: Option<u8>,
    prompted: Option<u8>,
) -> Result<u8, CliError> {
    match spec_chosen_slot(explicit, metadata, prompted) {
        Option::None => Err(CliError::NoSlot),
        Option::Some(s) => if spec_slot_in_range(s) {
            Ok(s)
        } else {
            Err(CliError::SlotOutOfRange)
        },
    }
}

/// Whether the interactive slot prompt is needed: only when neither the CLI
/// nor the metadata supplies a slot.
pub fn slot_needs_prompt(explicit: Option<u8>, metadata: Option<u8>) -> (r: bool)
    ensures
        r == (explicit is None && metadata is None),
{
    explicit.is_none() && metadata.is_none()
}

/// Resolves the target slot with layered precedence and defense-in-depth
/// range validation: even a metadata- or prompt-supplied value is
/// re-checked.
pub fn resolve_slot(explicit: Option<u8>, metadata: Option<u8>, prompted: Option<u8>) -> (r: Result<
    u8,
    CliError,
>)
    ensures
        r == spec_resolve_slot(explicit, metadata, prompted),
{
    let chosen: Option<u8> = if explicit.is_some() {
        explicit
    } else if metadata.is_some() {
        metadata
    } else {
        prompted
    };
    match chosen {
        Option::None => Err(CliError::NoSlot),
        Option::Some(s) => if slot_in_range(s) {
            Ok(s)
        } else {
            Err(CliError::SlotOutOfRange)
        },
    }
}

/// Resolves the program display name: explicit value, else the package's
/// name, else a fixed fallback.
pub fn resolve_name(explicit: Option<String>, package_name: Option<String>) -> (r: String)
    ensures
        explicit matches Some(n) ==> r@ == n@,
        explicit is None ==> (package_name matches Some(n) ==> r@ == n@),
        explicit is None && package_name is None ==> r@ == DEFAULT_NAME@,
{
    match explicit {
        Option::Some(n) => n,
        Option::None => match package_name {
            Option::Some(n) => n,
            Option::None => DEFAULT_NAME.to_owned(),
        },
    }
}

/// Resolves the program description: explicit value, else the package's
/// description, else a fixed fallback.
pub fn resolve_description(explicit: Option<String>, package_description: Option<String>) -> (r:
    String)
    ensures
        explicit matches Some(d) ==> r@ == d@,
        explicit is None ==> (package_description matches Some(d) ==> r@ == d@),
        explicit is None && package_description is None ==> r@ == DEFAULT_DESCRIPTION@,
{
    match explicit {
        Option::Some(d) => d,
        Option::None => match package_description {
            Option::Some(d) => d,
            Option::None => DEFAULT_DESCRIPTION.to_owned(),
        },
    }
}

/// The icon identifier resolution settles on, if any: the explicit CLI
/// identifier wins over the metadata identifier.
pub open spec fn spec_chosen_icon(explicit: Option<String>, metadata: Option<String>) -> Option<
    Seq<char>,
> {
    match explicit {
        Option::Some(id) => Some(id@),
        Option::None => match metadata {
            Option::Some(id) => Some(id@),
            Option::None => None,
        },
    }
}

/// Resolves the program icon: explicit identifier, else metadata
/// identifier, else the fixed default icon; an unrecognized identifier is
/// an error carrying that identifier.
pub fn resolve_icon(explicit: Option<String>, metadata: Option<String>) -> (r: Result<
    ProgramIcon,
    CliError,
>)
    ensures
        match spec_chosen_icon(explicit, metadata) {
            Option::None => r == Ok::<ProgramIcon, CliError>(spec_default_icon()),
            Option::Some(id) => match spec_parse_icon(id) {
                Option::Some(icon) => r == Ok::<ProgramIcon, CliError>(icon),
                Option::None => r matches Err(CliError::InvalidIcon(bad)) && bad@ == id,
            },
        },
{
    let chosen: Option<String> = match explicit {
        Option::Some(id) => Some(id),
        Option::None => metadata,
    };
    match chosen {
        Option::None => Ok(ProgramIcon::QuestionMark),
        Option::Some(id) => match parse_icon(&id) {
            Option::Some(icon) => Ok(icon),
            Option::None => Err(CliError::InvalidIcon(id)),
        },
    }
}

/// The resolved compression choice: an explicit `--uncompressed` flag wins
/// (inverted), else the metadata preference, else compression is on.
pub open spec fn spec_resolve_compression(
    uncompressed: Option<bool>,
    metadata: Option<bool>,
) -> bool {
    match uncompressed {
        Option::Some(u) => !u,
        Option::None => match metadata {
            Option::Some(c) => c,
            Option::None => true,
        },
    }
}

/// Resolves the compression flag.
pub fn resolve_compression(uncompressed: Option<bool>, metadata: Option<bool>) -> (r: bool)
    ensures
        r == spec_resolve_compression(uncompressed, metadata),
{
    match uncompressed {
        Option::Some(u) => !u,
        Option::None => match metadata {
            Option::Some(c) => c,
            Option::None => true,
        },
    }
}

/// Whether a path already names a final binary: it ends in the final-binary
/// extension, attached to a nonempty file name.
pub open spec fn spec_is_final_binary(p: Seq<u8>) -> bool {
    &&& p.len() >= 5
    &&& p[p.len() - 4] == 46u8  // '.'
    &&& p[p.len() - 3] == 98u8  // 'b'
    &&& p[p.len() - 2] == 105u8  // 'i'
    &&& p[p.len() - 1] == 110u8  // 'n'
    &&& p[p.len() - 5] != 47u8  // '/': the stem must not be empty
}

/// Checks whether a path already names a final binary.
pub fn is_final_binary(p: &Vec<u8>) -> (r: bool)
    ensures
        r == spec_is_final_binary(p@),
{
    let n = p.len();
    n >= 5 && p[n - 4] == 46u8 && p[n - 3] == 98u8 && p[n - 2] == 105u8 && p[n - 1] == 110u8 && p[n
        - 5] != 47u8
}

/// The bytes of the final-binary extension, dot included.
pub open spec fn spec_bin_suffix() -> Seq<u8> {
    seq![46u8, 98u8, 105u8, 110u8]
}

/// Where the extension (dot included) of the last path component starts,
/// scanning the component right to left from position `i`, or the path's
/// length when there is none. A dot that opens the component (a hidden
/// file) or sits at the path's very start begins no extension.
pub open spec fn spec_ext_start(p: Seq<u8>, i: int) -> int
    decreases i,
{
    if i <= 0 {
        p.len() as int
    } else if p[i - 1] == 47u8 {
        p.len() as int
    } else if p[i - 1] == 46u8 {
        if i - 1 == 0 || p[i - 2] == 47u8 {
            p.len() as int
        } else {
            i - 1
        }
    } else {
        spec_ext_start(p, i - 1)
    }
}

/// The path with its extension replaced by the final-binary extension, or
/// with that extension appended when it has none: where the build
/// collaborator leaves an unprocessed artifact, the converted final binary
/// stands beside it under this name.
pub fn with_bin_extension(path: &Vec<u8>) -> (r: Vec<u8>)
    ensures
        r@ == path@.take(spec_ext_start(path@, path@.len() as int)) + spec_bin_suffix(),
{
    let n = path.len();
    let mut i: usize = n;
    let mut ext: usize = n;
    while i > 0
        invariant_except_break
            i <= n,
            n == path@.len(),
            ext == n,
            spec_ext_start(path@, n as int) == spec_ext_start(path@, i as int),
        ensures
            n == path@.len(),
            ext <= n,
            ext == spec_ext_start(path@, n as int),
        decreases i,
    {
        let c = path[i - 1];
        if c == 47u8 {
            break;
        } else if c == 46u8 {
            if i - 1 > 0 && path[i - 2] != 47u8 {
                ext = i - 1;
            }
            break;
        }
        i -= 1;
    }
    let mut r: Vec<u8> = Vec::new();
    let mut j: usize = 0;
    while j < ext
        invariant
            j <= ext,
            ext <= n,
            n == path@.len(),
            r@ == path@.take(j as int),
        decreases ext - j,
    {
        r.push(path[j]);
        j += 1;
        proof {
            assert(path@.take(j as int) =~= path@.take(j as int - 1) + seq![
                path@[j as int - 1],
            ]);
        }
    }
    r.push(46u8);
    r.push(98u8);
    r.push(105u8);
    r.push(110u8);
    proof {
        assert(r@ =~= path@.take(ext as int) + spec_bin_suffix());
    }
    r
}

/// Decides how the uploadable artifact is obtained: an explicit final
/// binary is used as given, any other explicit path is converted, and with
/// no explicit path the project is built.
pub fn artifact_plan(file: Option<Vec<u8>>) -> (r: ArtifactPlan)
    ensures
        file is None ==> r is BuildProject,
        file matches Some(p) ==> (spec_is_final_binary(p@) ==> (
        r matches ArtifactPlan::UseProvided(q) && q@ == p@)),
        file matches Some(p) ==> (!spec_is_final_binary(p@) ==> (r matches ArtifactPlan::Convert(q)
            && q@ == p@)),
{
    match file {
        Option::None => ArtifactPlan::BuildProject,
        Option::Some(p) => if is_final_binary(&p) {
            ArtifactPlan::UseProvided(p)
        } else {
            ArtifactPlan::Convert(p)
        },
    }
}

/// Picks the package whose metadata drives resolution: the first package
/// that declares structured upload metadata, else the first package at all,
/// else none.
pub fn select_package(has_v5_metadata: &Vec<bool>) -> (r: Option<usize>)
    ensures
        r is None <==> has_v5_metadata@.len() == 0,
        r matches Some(i) ==> i < has_v5_metadata@.len(),
        r matches Some(i) ==> ((exists|j: int|
            0 <= j < has_v5_metadata@.len() && has_v5_metadata@[j]) ==> (has_v5_metadata@[i as int]
            && (forall|j: int| 0 <= j < i ==> !has_v5_metadata@[j]))),
        r matches Some(i) ==> ((forall|j: int|
            0 <= j < has_v5_metadata@.len() ==> !has_v5_metadata@[j]) ==> i == 0),
{
    let mut i: usize = 0;
    while i < has_v5_metadata.len()
        invariant
            i <= has_v5_metadata@.len(),
            forall|j: int| 0 <= j < i ==> !has_v5_metadata@[j],
        decreases has_v5_metadata@.len() - i,
    {
        if has_v5_metadata[i] {
            return Some(i);
        }
        i += 1;
    }
    if has_v5_metadata.len() > 0 {
        Some(0)
    } else {
        None
    }
}

/// A slot candidate outside the valid range is rejected with the
/// out-of-range error no matter which source — explicit argument, metadata,
/// or prompt — supplied it.
pub proof fn lemma_out_of_range_slot_rejected(
    explicit: Option<u8>,
    metadata: Option<u8>,
    prompted: Option<u8>,
    s: u8,
)
    requires
        spec_chosen_slot(explicit, metadata, prompted) == Some(s),
        !spec_slot_in_range(s),
    ensures
        spec_resolve_slot(explicit, metadata, prompted) == Err::<u8, CliError>(
            CliError::SlotOutOfRange,
        ),
{
}

/// Slot precedence: an explicit value always wins over a metadata value,
/// which always wins over the prompted value, whatever the other sources
/// hold.
pub proof fn lemma_slot_precedence(explicit: u8, metadata: Option<u8>, prompted: Option<u8>)
    ensures
        spec_chosen_slot(Some(explicit), metadata, prompted) == Some(explicit),
        prompted is Some ==> spec_chosen_slot(None, metadata, prompted) == if metadata is Some {
            metadata
        } else {
            prompted
        },
{
}

/// Icon precedence: an explicit identifier always wins over a metadata
/// identifier, which always wins over the default.
pub proof fn lemma_icon_precedence(explicit: String, metadata: Option<String>)
    ensures
        spec_chosen_icon(Some(explicit), metadata) == Some(explicit@),
        metadata matches Some(m) ==> spec_chosen_icon(None, metadata) == Some(m@),
        spec_chosen_icon(None, None) is None,
{
}

/// Compression precedence: an explicit `--uncompressed` flag always wins
/// (inverted) over a metadata preference, which always wins over the
/// default of compressing.
pub proof fn lemma_compression_precedence(explicit: bool, metadata: Option<bool>)
    ensures
        spec_resolve_compression(Some(explicit), metadata) == !explicit,
        metadata matches Some(c) ==> spec_resolve_compression(None, metadata) == c,
        spec_resolve_compression(None, None),
{
}

/// How every field of a successfully resolved configuration relates to the
/// raw ingredients: each field follows its own precedence chain,
/// independently of every other field.
pub open spec fn spec_resolved_fields(
    cfg: UploadConfig,
    artifact: Seq<u8>,
    slot: u8,
    icon: ProgramIcon,
    opts: UploadOpts,
    package: Option<PackageFields>,
    metadata_compress: Option<bool>,
) -> bool {
    &&& cfg.artifact@ == artifact
    &&& cfg.slot == slot
    &&& (opts.name matches Some(n) ==> cfg.name@ == n@)
    &&& (opts.name is None ==> (package matches Some(p) ==> cfg.name@ == p.name@))
    &&& (opts.name is None && package is None ==> cfg.name@ == DEFAULT_NAME@)
    &&& (opts.description matches Some(d) ==> cfg.description@ == d@)
    &&& (opts.description is None ==> (package matches Some(p) ==> (p.description matches Some(
        d,
    ) ==> cfg.description@ == d@)))
    &&& (opts.description is None ==> ((package matches Some(p) ==> p.description is None)
        ==> cfg.description@ == DEFAULT_DESCRIPTION@))
    &&& cfg.icon == icon
    &&& cfg.compress == spec_resolve_compression(opts.uncompressed, metadata_compress)
    &&& cfg.program_type@ == PROGRAM_TYPE@
}

/// Resolves the full upload configuration from its already-gathered raw
/// ingredients. Field precedence is per field: one field may resolve from
/// the CLI while another resolves from metadata in the same invocation, and
/// no field ever borrows another field's value. Errors are reported in this
/// order: slot resolution, missing artifact, icon resolution.
pub fn resolve_upload_config(
    artifact: Option<Vec<u8>>,
    opts: UploadOpts,
    package: Option<PackageFields>,
    metadata: Option<UploadMetadata>,
    prompted_slot: Option<u8>,
) -> (r: Result<UploadConfig, CliError>)
    ensures
        ({
            let metadata_slot = match metadata {
                Option::Some(m) => m.slot,
                Option::None => None,
            };
            let slot_result = spec_resolve_slot(opts.slot, metadata_slot, prompted_slot);
            match slot_result {
                Err(e) => r == Err::<UploadConfig, CliError>(e),
                Ok(slot) => match artifact {
                    Option::None => r == Err::<UploadConfig, CliError>(CliError::NoArtifact),
                    Option::Some(a) => {
                        let metadata_icon = match metadata {
                            Option::Some(m) => m.icon,
                            Option::None => None,
                        };
                        let metadata_compress = match metadata {
                            Option::Some(m) => m.compress,
                            Option::None => None,
                        };
                        match spec_chosen_icon(opts.icon, metadata_icon) {
                            Option::None => {
                                &&& r matches Ok(cfg)
                                &&& spec_resolved_fields(
                                    cfg,
                                    a@,
                                    slot,
                                    spec_default_icon(),
                                    opts,
                                    package,
                                    metadata_compress,
                                )
                                &&& cfg.wf()
                            },
                            Option::Some(id) => match spec_parse_icon(id) {
                                Option::None => (r matches Err(CliError::InvalidIcon(bad)) && bad@
                                    == id),
                                Option::Some(icon) => {
                                    &&& r matches Ok(cfg)
                                    &&& spec_resolved_fields(
                                        cfg,
                                        a@,
                                        slot,
                                        icon,
                                        opts,
                                        package,
                                        metadata_compress,
                                    )
                                    &&& cfg.wf()
                                },
                            },
                        }
                    },
                },
            }
        }),
{
    let (metadata_slot, metadata_icon, metadata_compress): (
        Option<u8>,
        Option<String>,
        Option<bool>,
    ) = match metadata {
        Option::Some(m) => (m.slot, m.icon, m.compress),
        Option::None => (None, None, None),
    };
    let (package_name, package_description): (Option<String>, Option<String>) = match package {
        Option::Some(p) => (Some(p.name), p.description),
        Option::None => (None, None),
    };

    let slot = match resolve_slot(opts.slot, metadata_slot, prompted_slot) {
        Ok(slot) => slot,
        Err(e) => {
            return Err(e);
        },
    };
    let artifact = match artifact {
        Option::Some(a) => a,
        Option::None => {
            return Err(CliError::NoArtifact);
        },
    };
    let icon = match resolve_icon(opts.icon, metadata_icon) {
        Ok(icon) => icon,
        Err(e) => {
            return Err(e);
        },
    };
    Ok(
        UploadConfig {
            artifact,
            slot,
            name: resolve_name(opts.name, package_name),
            description: resolve_description(opts.description, package_description),
            icon,
            program_type: PROGRAM_TYPE.to_owned(),
            compress: resolve_compression(opts.uncompressed, metadata_compress),
        },
    )
}

} // verus!
