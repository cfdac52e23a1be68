use cargo_v5::{
    artifact_plan, is_final_binary, parse_icon, resolve_compression, resolve_description,
    resolve_icon, resolve_name, resolve_slot, resolve_upload_config, select_package,
    slot_needs_prompt, ArtifactPlan, CliError, PackageFields, ProgramIcon, UploadMetadata,
    UploadOpts,
};

fn no_opts() -> UploadOpts {
    UploadOpts {
        file: None,
        slot: None,
        name: None,
        description: None,
        icon: None,
        uncompressed: None,
    }
}

#[test]
fn slot_out_of_range_rejected_from_explicit() {
    assert_eq!(resolve_slot(Some(0), None, None), Err(CliError::SlotOutOfRange));
    assert_eq!(resolve_slot(Some(9), None, None), Err(CliError::SlotOutOfRange));
    assert_eq!(resolve_slot(Some(255), None, None), Err(CliError::SlotOutOfRange));
}

#[test]
fn slot_out_of_range_rejected_from_metadata() {
    assert_eq!(resolve_slot(None, Some(0), None), Err(CliError::SlotOutOfRange));
    assert_eq!(resolve_slot(None, Some(9), None), Err(CliError::SlotOutOfRange));
}

#[test]
fn slot_out_of_range_rejected_from_prompt() {
    assert_eq!(resolve_slot(None, None, Some(0)), Err(CliError::SlotOutOfRange));
    assert_eq!(resolve_slot(None, None, Some(200)), Err(CliError::SlotOutOfRange));
}

#[test]
fn slot_range_bounds_are_inclusive() {
    assert_eq!(resolve_slot(Some(1), None, None), Ok(1));
    assert_eq!(resolve_slot(Some(8), None, None), Ok(8));
}

#[test]
fn slot_missing_from_every_source_is_an_error() {
    assert_eq!(resolve_slot(None, None, None), Err(CliError::NoSlot));
}

#[test]
fn slot_precedence_explicit_over_metadata_over_prompt() {
    assert_eq!(resolve_slot(Some(2), Some(5), Some(7)), Ok(2));
    assert_eq!(resolve_slot(None, Some(5), Some(7)), Ok(5));
    assert_eq!(resolve_slot(None, None, Some(7)), Ok(7));
}

#[test]
fn slot_prompt_needed_only_without_explicit_and_metadata() {
    assert!(slot_needs_prompt(None, None));
    assert!(!slot_needs_prompt(Some(3), None));
    assert!(!slot_needs_prompt(None, Some(3)));
    assert!(!slot_needs_prompt(Some(3), Some(4)));
}

#[test]
fn metadata_slot_used_when_cli_passes_none() {
    assert_eq!(resolve_slot(None, Some(5), None), Ok(5));
}

#[test]
fn cli_slot_wins_over_metadata_slot() {
    assert_eq!(resolve_slot(Some(2), Some(5), None), Ok(2));
}

#[test]
fn name_precedence_explicit_over_package_over_default() {
    assert_eq!(resolve_name(Some("mine".to_string()), Some("pkg".to_string())), "mine");
    assert_eq!(resolve_name(None, Some("pkg".to_string())), "pkg");
    assert_eq!(resolve_name(None, None), "cargo-v5");
}

#[test]
fn description_precedence_explicit_over_package_over_default() {
    assert_eq!(
        resolve_description(Some("mine".to_string()), Some("pkg".to_string())),
        "mine"
    );
    assert_eq!(resolve_description(None, Some("pkg".to_string())), "pkg");
    assert_eq!(resolve_description(None, None), "Uploaded with cargo-v5.");
}

#[test]
fn icon_precedence_explicit_over_metadata_over_default() {
    assert_eq!(
        resolve_icon(Some("robot".to_string()), Some("pizza".to_string())),
        Ok(ProgramIcon::Robot)
    );
    assert_eq!(resolve_icon(None, Some("pizza".to_string())), Ok(ProgramIcon::Pizza));
    assert_eq!(resolve_icon(None, None), Ok(ProgramIcon::QuestionMark));
}

#[test]
fn unrecognized_icon_is_an_error() {
    assert_eq!(
        resolve_icon(Some("bogus".to_string()), None),
        Err(CliError::InvalidIcon("bogus".to_string()))
    );
    assert_eq!(
        resolve_icon(None, Some("nope".to_string())),
        Err(CliError::InvalidIcon("nope".to_string()))
    );
}

#[test]
fn icon_identifiers_parse() {
    assert_eq!(parse_icon(&"cool-x".to_string()), Some(ProgramIcon::CoolX));
    assert_eq!(parse_icon(&"question-mark".to_string()), Some(ProgramIcon::QuestionMark));
    assert_eq!(parse_icon(&"clawbot".to_string()), Some(ProgramIcon::Clawbot));
    assert_eq!(parse_icon(&"vex".to_string()), Some(ProgramIcon::VexLogo));
    assert_eq!(parse_icon(&"".to_string()), None);
}

#[test]
fn compression_precedence_explicit_over_metadata_over_default() {
    assert!(!resolve_compression(Some(true), Some(true)));
    assert!(resolve_compression(Some(false), Some(false)));
    assert!(!resolve_compression(None, Some(false)));
    assert!(resolve_compression(None, Some(true)));
    assert!(resolve_compression(None, None));
}

#[test]
fn final_binary_paths_are_recognized() {
    assert!(is_final_binary(&b"robot.bin".to_vec()));
    assert!(is_final_binary(&b"out/x.bin".to_vec()));
    assert!(!is_final_binary(&b"robot.elf".to_vec()));
    assert!(!is_final_binary(&b"robot".to_vec()));
    assert!(!is_final_binary(&b".bin".to_vec()));
    assert!(!is_final_binary(&b"a/.bin".to_vec()));
    assert!(!is_final_binary(&b"dir.bin/foo".to_vec()));
}

#[test]
fn artifact_plan_uses_final_binary_directly() {
    match artifact_plan(Some(b"robot.bin".to_vec())) {
        ArtifactPlan::UseProvided(p) => assert_eq!(p, b"robot.bin".to_vec()),
        _ => panic!("expected the provided path to be used directly"),
    }
}

#[test]
fn artifact_plan_converts_other_files() {
    match artifact_plan(Some(b"robot.elf".to_vec())) {
        ArtifactPlan::Convert(p) => assert_eq!(p, b"robot.elf".to_vec()),
        _ => panic!("expected a conversion plan"),
    }
}

#[test]
fn artifact_plan_builds_without_a_file() {
    assert!(matches!(artifact_plan(None), ArtifactPlan::BuildProject));
}

#[test]
fn elf_artifact_slot_three_no_metadata_resolves_with_defaults() {
    // The artifact arrived as `robot.elf`, so the plan is to convert it; the
    // converted final binary is what resolution then receives.
    match artifact_plan(Some(b"robot.elf".to_vec())) {
        ArtifactPlan::Convert(p) => assert_eq!(p, b"robot.elf".to_vec()),
        _ => panic!("expected a conversion plan"),
    }
    let converted = b"robot.bin".to_vec();
    let cfg = resolve_upload_config(
        Some(converted.clone()),
        UploadOpts {
            slot: Some(3),
            ..no_opts()
        },
        None,
        None,
        None,
    )
    .expect("resolution should succeed");
    assert_eq!(cfg.artifact, converted);
    assert_eq!(cfg.slot, 3);
    assert!(cfg.compress);
    assert_eq!(cfg.icon, ProgramIcon::QuestionMark);
    assert_eq!(cfg.name, "cargo-v5");
    assert_eq!(cfg.description, "Uploaded with cargo-v5.");
    assert_eq!(cfg.program_type, "Rust");
}

#[test]
fn metadata_slot_five_resolves_and_cli_slot_two_overrides() {
    let metadata = UploadMetadata {
        slot: Some(5),
        icon: None,
        compress: None,
    };
    let cfg = resolve_upload_config(
        Some(b"robot.bin".to_vec()),
        no_opts(),
        None,
        Some(metadata),
        None,
    )
    .expect("resolution should succeed");
    assert_eq!(cfg.slot, 5);

    let metadata = UploadMetadata {
        slot: Some(5),
        icon: None,
        compress: None,
    };
    let cfg = resolve_upload_config(
        Some(b"robot.bin".to_vec()),
        UploadOpts {
            slot: Some(2),
            ..no_opts()
        },
        None,
        Some(metadata),
        None,
    )
    .expect("resolution should succeed");
    assert_eq!(cfg.slot, 2);
}

#[test]
fn fields_resolve_from_independent_sources_in_one_invocation() {
    let cfg = resolve_upload_config(
        Some(b"robot.bin".to_vec()),
        UploadOpts {
            slot: Some(4),
            description: Some("explicit description".to_string()),
            ..no_opts()
        },
        Some(PackageFields {
            name: "my-robot".to_string(),
            description: Some("package description".to_string()),
        }),
        Some(UploadMetadata {
            slot: Some(6),
            icon: Some("alien".to_string()),
            compress: Some(false),
        }),
        None,
    )
    .expect("resolution should succeed");
    assert_eq!(cfg.slot, 4);
    assert_eq!(cfg.name, "my-robot");
    assert_eq!(cfg.description, "explicit description");
    assert_eq!(cfg.icon, ProgramIcon::Alien);
    assert!(!cfg.compress);
}

#[test]
fn missing_artifact_is_an_error() {
    let r = resolve_upload_config(
        None,
        UploadOpts {
            slot: Some(3),
            ..no_opts()
        },
        None,
        None,
        None,
    );
    assert!(matches!(r, Err(CliError::NoArtifact)));
}

#[test]
fn slot_errors_win_over_artifact_errors() {
    let r = resolve_upload_config(None, no_opts(), None, None, None);
    assert!(matches!(r, Err(CliError::NoSlot)));
}

#[test]
fn package_selection_prefers_declared_metadata() {
    assert_eq!(select_package(&vec![false, true, true]), Some(1));
    assert_eq!(select_package(&vec![true, false]), Some(0));
}

#[test]
fn package_selection_falls_back_to_first_package() {
    assert_eq!(select_package(&vec![false, false]), Some(0));
    assert_eq!(select_package(&vec![]), None);
}

#[test]
fn bin_extension_replaces_an_existing_extension() {
    assert_eq!(
        cargo_v5::with_bin_extension(&b"robot.elf".to_vec()),
        b"robot.bin".to_vec()
    );
    assert_eq!(
        cargo_v5::with_bin_extension(&b"target/armv7a/release/x.tar.gz".to_vec()),
        b"target/armv7a/release/x.tar.bin".to_vec()
    );
}

#[test]
fn bin_extension_is_appended_when_there_is_none() {
    assert_eq!(
        cargo_v5::with_bin_extension(&b"robot".to_vec()),
        b"robot.bin".to_vec()
    );
    assert_eq!(
        cargo_v5::with_bin_extension(&b"a.b/c".to_vec()),
        b"a.b/c.bin".to_vec()
    );
    assert_eq!(
        cargo_v5::with_bin_extension(&b".hidden".to_vec()),
        b".hidden.bin".to_vec()
    );
    assert_eq!(
        cargo_v5::with_bin_extension(&b"a/.hidden".to_vec()),
        b"a/.hidden.bin".to_vec()
    );
}
