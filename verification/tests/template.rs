use cargo_v5::{
    baked_in_template, project_dir, project_name, replace_all, template_placeholder,
    validate_project_dir, CliError,
};

#[test]
fn template_has_a_manifest_entry() {
    let t = baked_in_template();
    assert!(!t.is_empty());
    let manifest = t
        .iter()
        .find(|e| e.path == "Cargo.toml")
        .expect("the template must carry a manifest");
    assert!(manifest.contents.contains("vexide-template"));
}

#[test]
fn template_paths_are_relative() {
    for entry in baked_in_template() {
        assert!(!entry.path.is_empty());
        assert!(!entry.path.starts_with('/'));
    }
}

#[test]
fn placeholder_matches_the_template_manifest_name() {
    assert_eq!(template_placeholder(), "vexide-template");
}

#[test]
fn named_project_goes_into_a_subdirectory() {
    assert_eq!(
        project_dir(".".to_string(), &Some("my-robot".to_string())),
        "./my-robot"
    );
    assert_eq!(project_dir("work".to_string(), &None), "work");
}

#[test]
fn project_name_falls_back_to_the_directory_name() {
    assert_eq!(
        project_name(Some("given".to_string()), "dir".to_string()),
        "given"
    );
    assert_eq!(project_name(None, "dir".to_string()), "dir");
}

#[test]
fn scaffolding_into_a_full_directory_is_refused() {
    assert_eq!(
        validate_project_dir(Some(2), "here".to_string()),
        Err(CliError::ProjectDirFull("here".to_string()))
    );
    assert_eq!(validate_project_dir(Some(0), "here".to_string()), Ok(()));
    assert_eq!(validate_project_dir(None, "here".to_string()), Ok(()));
}

#[test]
fn placeholder_occurrences_are_rewritten() {
    let manifest = b"name = \"vexide-template\"\npath = \"vexide-template/src\"\n".to_vec();
    let from = b"vexide-template".to_vec();
    let to = b"my-robot".to_vec();
    let out = replace_all(&manifest, &from, &to);
    assert_eq!(out, b"name = \"my-robot\"\npath = \"my-robot/src\"\n".to_vec());
}

#[test]
fn replacement_without_occurrences_keeps_the_text() {
    let out = replace_all(&b"abc".to_vec(), &b"xyz".to_vec(), &b"q".to_vec());
    assert_eq!(out, b"abc".to_vec());
}

#[test]
fn replacement_scans_left_to_right_without_overlap() {
    let out = replace_all(&b"aaa".to_vec(), &b"aa".to_vec(), &b"b".to_vec());
    assert_eq!(out, b"ba".to_vec());
}

#[test]
fn replacement_handles_adjacent_occurrences() {
    let out = replace_all(&b"xx".to_vec(), &b"x".to_vec(), &b"yy".to_vec());
    assert_eq!(out, b"yyyy".to_vec());
}

#[test]
fn replacement_can_erase_occurrences() {
    let out = replace_all(&b"a-b-c".to_vec(), &b"-".to_vec(), &b"".to_vec());
    assert_eq!(out, b"abc".to_vec());
}

#[test]
fn full_scaffold_rename_flow() {
    let t = baked_in_template();
    let manifest = t.iter().find(|e| e.path == "Cargo.toml").unwrap();
    let renamed = replace_all(
        &manifest.contents.as_bytes().to_vec(),
        &template_placeholder().as_bytes().to_vec(),
        &b"clawbot-9000".to_vec(),
    );
    let renamed = String::from_utf8(renamed).unwrap();
    assert!(renamed.contains("name = \"clawbot-9000\""));
    assert!(!renamed.contains("vexide-template"));
}
