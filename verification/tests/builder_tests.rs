use lilt_control::builder::{build_args, build_invocation, build_path_overlay, parent_dir};
use lilt_control::Settings;

fn base_settings() -> Settings {
    Settings {
        lilt_path: "/usr/local/bin/lilt".to_string(),
        sox_path: String::new(),
        ffmpeg_path: String::new(),
        ffprobe_path: String::new(),
        use_docker: false,
        enforce_output_format: String::new(),
        no_preserve_metadata: false,
        copy_images: false,
        source_dir: "/a".to_string(),
        target_dir: "/b".to_string(),
    }
}

#[test]
fn flag_mapping_example() {
    let mut s = base_settings();
    s.enforce_output_format = "mp3".to_string();
    s.no_preserve_metadata = true;
    let args = build_args(&s);
    assert_eq!(
        args,
        vec![
            "/a".to_string(),
            "--target-dir".to_string(),
            "/b".to_string(),
            "--enforce-output-format".to_string(),
            "mp3".to_string(),
            "--no-preserve-metadata".to_string(),
        ]
    );
}

#[test]
fn no_optional_flags() {
    let s = base_settings();
    let args = build_args(&s);
    assert_eq!(
        args,
        vec!["/a".to_string(), "--target-dir".to_string(), "/b".to_string()]
    );
}

#[test]
fn all_optional_flags() {
    let mut s = base_settings();
    s.use_docker = true;
    s.enforce_output_format = "ogg".to_string();
    s.no_preserve_metadata = true;
    s.copy_images = true;
    let args = build_args(&s);
    assert_eq!(
        args,
        vec![
            "/a".to_string(),
            "--target-dir".to_string(),
            "/b".to_string(),
            "--use-docker".to_string(),
            "--enforce-output-format".to_string(),
            "ogg".to_string(),
            "--no-preserve-metadata".to_string(),
            "--copy-images".to_string(),
        ]
    );
}

#[test]
fn builder_is_deterministic() {
    let mut s = base_settings();
    s.sox_path = "/opt/tool/bin/tool".to_string();
    s.enforce_output_format = "flac".to_string();
    s.copy_images = true;
    let first = build_invocation(&s, "/usr/bin:/bin");
    let second = build_invocation(&s, "/usr/bin:/bin");
    assert_eq!(first.program, second.program);
    assert_eq!(first.args, second.args);
    assert_eq!(first.path_overlay, second.path_overlay);
}

#[test]
fn parent_dir_cases() {
    assert_eq!(parent_dir("/opt/tool/bin/tool"), "/opt/tool/bin".to_string());
    assert_eq!(parent_dir("a/b"), "a".to_string());
    assert_eq!(parent_dir("/tool"), "/".to_string());
    assert_eq!(parent_dir("tool"), String::new());
    assert_eq!(parent_dir(""), String::new());
}

#[test]
fn path_overlay_prepends_tool_directory() {
    let mut s = base_settings();
    s.sox_path = "/opt/tool/bin/tool".to_string();
    let overlay = build_path_overlay(&s, "/usr/bin:/bin");
    assert_eq!(overlay, Some("/opt/tool/bin:/usr/bin:/bin".to_string()));
}

#[test]
fn path_overlay_untouched_in_docker_mode() {
    let mut s = base_settings();
    s.use_docker = true;
    s.sox_path = "/opt/tool/bin/tool".to_string();
    assert_eq!(build_path_overlay(&s, "/usr/bin:/bin"), None);
}

#[test]
fn path_overlay_skipped_without_helper_path() {
    let s = base_settings();
    assert_eq!(build_path_overlay(&s, "/usr/bin:/bin"), None);
}

#[test]
fn path_overlay_skipped_for_bare_name() {
    let mut s = base_settings();
    s.sox_path = "tool".to_string();
    assert_eq!(build_path_overlay(&s, "/usr/bin:/bin"), None);
}

#[test]
fn invocation_carries_program_and_overlay() {
    let mut s = base_settings();
    s.sox_path = "/opt/sox/bin/sox".to_string();
    let inv = build_invocation(&s, "/bin");
    assert_eq!(inv.program, "/usr/local/bin/lilt".to_string());
    assert_eq!(inv.args[0], "/a".to_string());
    assert_eq!(inv.path_overlay, Some("/opt/sox/bin:/bin".to_string()));
}
