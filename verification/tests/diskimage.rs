use afpack::{
    AttachOptions, CreateBlankOptions, CreateFromOptions, DiskImage, DiskImageError, FileSystem,
    Format, Invocation, Next, Outcome, Plan, ResizeOptions,
};

fn words(list: &[&str]) -> Vec<String> {
    list.iter().map(|w| w.to_string()).collect()
}

fn run_of(plan: &Plan) -> &Invocation {
    match &plan.next {
        Next::Run(invocation) => invocation,
        other => panic!("expected a run, got {:?}", other),
    }
}

fn returned(plan: &Plan) -> &Result<String, DiskImageError> {
    match &plan.next {
        Next::Return(result) => result,
        other => panic!("expected a result, got {:?}", other),
    }
}

#[test]
fn test_filesystem_display() {
    assert_eq!(FileSystem::APFS.to_string(), "APFS");
    assert_eq!(FileSystem::ExFAT.to_string(), "ExFAT");
    assert_eq!(FileSystem::MSDOS.to_string(), "MS-DOS");
    assert_eq!(FileSystem::Unformatted.to_string(), "None");
}

#[test]
fn test_size_validation() {
    assert!(DiskImage::is_valid_size("5GB"));
    assert!(DiskImage::is_valid_size("100MB"));
    assert!(DiskImage::is_valid_size("1024"));
    assert!(!DiskImage::is_valid_size("invalid"));
}

#[test]
fn test_default_options() {
    let attach_opts = AttachOptions::default();
    assert_eq!(attach_opts.mount_point, None);
    assert!(!attach_opts.readonly);
    assert!(!attach_opts.verbose);
    assert!(!attach_opts.dry_run);

    let create_blank_opts = CreateBlankOptions::default();
    assert_eq!(create_blank_opts.size, "1GB");
    assert_eq!(create_blank_opts.fs, FileSystem::Unformatted);
    assert_eq!(create_blank_opts.format, Format::ASIF);

    let create_from_opts = CreateFromOptions::default();
    assert_eq!(create_from_opts.format, Format::ASIF);
}

#[test]
fn test_format_display() {
    assert_eq!(Format::RAW.to_string(), "RAW");
    assert_eq!(Format::ASIF.to_string(), "ASIF");
    assert_eq!(Format::UDSB.to_string(), "UDSB");
}

#[test]
fn enum_defaults() {
    assert_eq!(Format::default(), Format::ASIF);
    assert_eq!(FileSystem::default(), FileSystem::APFS);
}

#[test]
fn filesystem_flag_values_are_lower_case() {
    assert_eq!(FileSystem::APFS.flag_value(), "apfs");
    assert_eq!(FileSystem::ExFAT.flag_value(), "exfat");
    assert_eq!(FileSystem::MSDOS.flag_value(), "ms-dos");
    assert_eq!(FileSystem::Unformatted.flag_value(), "none");
    for fs in [FileSystem::APFS, FileSystem::ExFAT, FileSystem::MSDOS, FileSystem::Unformatted] {
        assert_eq!(fs.flag_value(), fs.to_string().to_lowercase());
    }
}

#[test]
fn size_suffixes_in_either_case() {
    for unit in ["b", "kb", "mb", "gb", "tb", "k", "m", "g", "t"] {
        assert!(DiskImage::is_valid_size(&format!("7{}", unit)));
        assert!(DiskImage::is_valid_size(&format!("7{}", unit.to_uppercase())));
        assert!(DiskImage::is_valid_size(unit));
    }
    assert!(DiskImage::is_valid_size("100mb"));
    assert!(DiskImage::is_valid_size("1Gb"));
    assert!(DiskImage::is_valid_size("5\u{212A}"));
}

#[test]
fn size_digits_only() {
    assert!(DiskImage::is_valid_size("0"));
    assert!(DiskImage::is_valid_size("18446744073709551616000"));
    assert!(DiskImage::is_valid_size(""));
    assert!(!DiskImage::is_valid_size("12 "));
    assert!(!DiskImage::is_valid_size("-1"));
    assert!(!DiskImage::is_valid_size("1.5"));
    assert!(!DiskImage::is_valid_size("\u{0661}\u{0662}"));
}

#[test]
fn size_rejected() {
    assert!(!DiskImage::is_valid_size("5GBs"));
    assert!(!DiskImage::is_valid_size("gb5x"));
    assert!(!DiskImage::is_valid_size("5 gigs"));
    assert!(!DiskImage::is_valid_size("10p"));
}

#[test]
fn size_agrees_with_lowercase_suffix_rule() {
    let samples = [
        "", "b", "B", "5GB", "5gB", "tb", "T", "1024", "10x", "k9", "9k", "K", "\u{212A}",
        "\u{0130}", "m ", " m", "MB1", "0001", "1e3", "t\u{0307}",
    ];
    for s in samples {
        let lower = s.to_lowercase();
        let expected = ["b", "kb", "mb", "gb", "tb", "k", "m", "g", "t"]
            .iter()
            .any(|u| lower.ends_with(u))
            || s.chars().all(|c| c.is_ascii_digit());
        assert_eq!(DiskImage::is_valid_size(s), expected, "{:?}", s);
    }
}

#[test]
fn builders_set_only_their_field() {
    let o = AttachOptions::new().readonly();
    assert!(o.readonly && !o.nobrowse && !o.verbose && !o.dry_run && o.mount_point.is_none());
    let o = AttachOptions::new().nobrowse();
    assert!(!o.readonly && o.nobrowse && !o.verbose && !o.dry_run);
    let o = AttachOptions::new().verbose();
    assert!(!o.readonly && !o.nobrowse && o.verbose && !o.dry_run);
    let o = o.with_verbose(false).with_dry_run(true).with_mount_point("mnt");
    assert!(!o.verbose && o.dry_run);
    assert_eq!(o.mount_point, Some("mnt".to_string()));

    let b = CreateBlankOptions::new("3T", FileSystem::ExFAT, Format::RAW);
    assert_eq!(b.size, "3T");
    assert_eq!(b.fs, FileSystem::ExFAT);
    assert_eq!(b.format, Format::RAW);
    assert!(!b.dry_run && !b.verbose);
    let b = b.with_dry_run(true).with_verbose(true);
    assert!(b.dry_run && b.verbose);
    assert_eq!(b.size, "3T");

    let f = CreateFromOptions::new(Format::UDSB);
    assert_eq!(f.format, Format::UDSB);
    assert!(!f.dry_run && !f.verbose);
    let f = f.with_verbose(true).with_dry_run(true);
    assert!(f.dry_run && f.verbose);
    assert_eq!(f.format, Format::UDSB);

    let r = ResizeOptions::new("nonsense");
    assert_eq!(r.size, "nonsense");
    assert!(!r.dry_run && !r.verbose);
    let r = r.with_dry_run(true).with_verbose(true);
    assert!(r.dry_run && r.verbose);
}

#[test]
fn attach_dry_run_touches_nothing() {
    for exists in [false, true] {
        let plan = DiskImage::attach(
            "deps.asif",
            AttachOptions::new().with_dry_run(true).with_mount_point("deps"),
            exists,
        );
        assert_eq!(plan.create_dir, None);
        let line = "\"diskutil\" \"image\" \"attach\" \"--mountPoint\" \"deps\" \"deps.asif\"";
        assert_eq!(plan.announce, Some(format!("[DRY RUN] Would execute: {}", line)));
        match returned(&plan) {
            Ok(text) => assert_eq!(text, &format!("[DRY RUN] Command: {}", line)),
            Err(e) => panic!("{:?}", e),
        }
    }
}

#[test]
fn attach_creates_missing_mount_point() {
    let plan = afpack::attach("deps.asif", AttachOptions::new().with_mount_point("deps"), false);
    assert_eq!(plan.create_dir, Some("deps".to_string()));
    assert_eq!(plan.announce, None);
    let run = run_of(&plan);
    assert_eq!(run.program, "diskutil");
    assert_eq!(run.args, words(&["image", "attach", "--mountPoint", "deps", "deps.asif"]));
}

#[test]
fn attach_leaves_existing_mount_point() {
    let plan = DiskImage::attach("a.asif", AttachOptions::new().with_mount_point("a"), true);
    assert_eq!(plan.create_dir, None);
    assert_eq!(run_of(&plan).args, words(&["image", "attach", "--mountPoint", "a", "a.asif"]));
}

#[test]
fn attach_without_mount_point() {
    let plan = DiskImage::attach("a.asif", AttachOptions::new().readonly().nobrowse(), false);
    assert_eq!(plan.create_dir, None);
    assert_eq!(plan.announce, None);
    assert_eq!(run_of(&plan).args, words(&["image", "attach", "a.asif"]));
}

#[test]
fn attach_verbose_announces_and_passes_flag() {
    let plan = DiskImage::attach("a.asif", AttachOptions::new().verbose(), false);
    assert_eq!(
        plan.announce,
        Some("[VERBOSE] Executing: \"diskutil\" \"image\" \"attach\" \"--verbose\" \"a.asif\"".to_string())
    );
    assert_eq!(run_of(&plan).args, words(&["image", "attach", "--verbose", "a.asif"]));
}

#[test]
fn quoting_escapes_what_needs_it() {
    let plan = DiskImage::attach("my \"big\" dir\\x.asif", AttachOptions::new().with_dry_run(true), false);
    match returned(&plan) {
        Ok(text) => assert_eq!(
            text,
            "[DRY RUN] Command: \"diskutil\" \"image\" \"attach\" \"my \\\"big\\\" dir\\\\x.asif\""
        ),
        Err(e) => panic!("{:?}", e),
    }
}

#[test]
fn create_blank_dry_run_echo() {
    let plan = afpack::create_blank(
        "deps.asif",
        CreateBlankOptions::new("2GB", FileSystem::APFS, Format::ASIF).with_dry_run(true),
    );
    let line = "diskutil image create blank --fs apfs --format ASIF --size 2GB deps.asif";
    assert_eq!(plan.create_dir, None);
    assert_eq!(plan.announce, Some(format!("[DRY RUN] Would execute: {}", line)));
    match returned(&plan) {
        Ok(text) => assert_eq!(text, &format!("[DRY RUN] Command: {}", line)),
        Err(e) => panic!("{:?}", e),
    }
}

#[test]
fn create_blank_runs() {
    let plan = DiskImage::create_blank(
        "x.img",
        CreateBlankOptions::new("512m", FileSystem::MSDOS, Format::UDSB).with_verbose(true),
    );
    let run = run_of(&plan);
    assert_eq!(run.program, "diskutil");
    assert_eq!(
        run.args,
        words(&["image", "create", "blank", "--fs", "ms-dos", "--format", "UDSB", "--size", "512m", "x.img"])
    );
    assert_eq!(
        plan.announce,
        Some(
            "[VERBOSE] Executing: \"diskutil\" \"image\" \"create\" \"blank\" \"--fs\" \"ms-dos\" \"--format\" \"UDSB\" \"--size\" \"512m\" \"x.img\""
                .to_string()
        )
    );
    let plan = DiskImage::create_blank("x.img", CreateBlankOptions::default());
    assert_eq!(plan.announce, None);
    assert_eq!(
        run_of(&plan).args,
        words(&["image", "create", "blank", "--fs", "none", "--format", "ASIF", "--size", "1GB", "x.img"])
    );
}

#[test]
fn create_blank_invalid_size_in_both_modes() {
    for dry_run in [false, true] {
        let plan = DiskImage::create_blank(
            "x.asif",
            CreateBlankOptions::new("huge!", FileSystem::APFS, Format::ASIF)
                .with_dry_run(dry_run)
                .with_verbose(true),
        );
        assert_eq!(plan.create_dir, None);
        assert_eq!(plan.announce, None);
        match returned(&plan) {
            Err(DiskImageError::InvalidSize(size)) => assert_eq!(size, "huge!"),
            other => panic!("{:?}", other),
        }
    }
}

#[test]
fn create_from_missing_source() {
    let plan = afpack::create_from("deps", "deps.asif", CreateFromOptions::new(Format::ASIF), false);
    match returned(&plan) {
        Err(DiskImageError::InvalidPath(path)) => assert_eq!(path, "deps"),
        other => panic!("{:?}", other),
    }
    let plan = DiskImage::create_from(
        "deps",
        "deps.asif",
        CreateFromOptions::new(Format::ASIF).with_dry_run(true),
        false,
    );
    assert_eq!(
        plan.announce,
        Some("[DRY RUN] Would execute: diskutil image create from --format ASIF deps deps.asif".to_string())
    );
    match returned(&plan) {
        Ok(text) => assert_eq!(
            text,
            "[DRY RUN] Command: diskutil image create from --format ASIF deps deps.asif"
        ),
        Err(e) => panic!("{:?}", e),
    }
}

#[test]
fn create_from_runs() {
    let plan = DiskImage::create_from("src dir", "out.raw", CreateFromOptions::new(Format::RAW), true);
    assert_eq!(plan.create_dir, None);
    assert_eq!(plan.announce, None);
    assert_eq!(
        run_of(&plan).args,
        words(&["image", "create", "from", "--format", "RAW", "src dir", "out.raw"])
    );
}

#[test]
fn resize_checks_size_then_path() {
    let plan = afpack::resize("x.asif", ResizeOptions::new("wide").with_dry_run(true), true);
    match returned(&plan) {
        Err(DiskImageError::InvalidSize(size)) => assert_eq!(size, "wide"),
        other => panic!("{:?}", other),
    }
    let plan = DiskImage::resize("x.asif", ResizeOptions::new("wide"), false);
    match returned(&plan) {
        Err(DiskImageError::InvalidSize(size)) => assert_eq!(size, "wide"),
        other => panic!("{:?}", other),
    }
    let plan = DiskImage::resize("x.asif", ResizeOptions::new("5GB"), false);
    match returned(&plan) {
        Err(DiskImageError::InvalidPath(path)) => assert_eq!(path, "x.asif"),
        other => panic!("{:?}", other),
    }
    let plan = DiskImage::resize("x.asif", ResizeOptions::new("5GB").with_dry_run(true), false);
    match returned(&plan) {
        Ok(text) => assert_eq!(text, "[DRY RUN] Command: diskutil image resize --size 5GB x.asif"),
        Err(e) => panic!("{:?}", e),
    }
    let plan = DiskImage::resize("x.asif", ResizeOptions::new("5GB"), true);
    assert_eq!(run_of(&plan).args, words(&["image", "resize", "--size", "5GB", "x.asif"]));
    assert_eq!(plan.announce, None);
}

#[test]
fn detach_unmounts() {
    let plan = afpack::detach("deps");
    assert_eq!(plan.create_dir, None);
    assert_eq!(plan.announce, None);
    let run = run_of(&plan);
    assert_eq!(run.program, "diskutil");
    assert_eq!(run.args, words(&["unmount", "deps"]));
    assert_eq!(run.plain_text(), "diskutil unmount deps");
    assert_eq!(run.quoted_text(), "\"diskutil\" \"unmount\" \"deps\"");
    assert_eq!(run.words(), words(&["diskutil", "unmount", "deps"]));
}

#[test]
fn conclude_success_gives_standard_output() {
    let result = DiskImage::conclude(Outcome::Exited {
        success: true,
        stdout: b"/dev/disk4\n".to_vec(),
        stderr: b"noise".to_vec(),
    });
    assert_eq!(result.unwrap(), "/dev/disk4\n");
}

#[test]
fn conclude_failure_gives_standard_error() {
    let result = DiskImage::conclude(Outcome::Exited {
        success: false,
        stdout: b"partial".to_vec(),
        stderr: b"no such image".to_vec(),
    });
    match result {
        Err(DiskImageError::CommandFailed(text)) => assert_eq!(text, "no such image"),
        other => panic!("{:?}", other),
    }
}

#[test]
fn conclude_decodes_lossily() {
    let result = DiskImage::conclude(Outcome::Exited {
        success: true,
        stdout: vec![b'o', b'k', 0xff, b'!', 0xc3, 0xa9],
        stderr: vec![],
    });
    assert_eq!(result.unwrap(), "ok\u{fffd}!\u{e9}");
}

#[test]
fn conclude_launch_and_directory_failures() {
    match DiskImage::conclude(Outcome::NotStarted) {
        Err(DiskImageError::DiskutilNotFound) => {}
        other => panic!("{:?}", other),
    }
    match DiskImage::conclude(Outcome::DirectoryFailed("Permission denied".to_string())) {
        Err(DiskImageError::CommandFailed(text)) => assert_eq!(text, "Permission denied"),
        other => panic!("{:?}", other),
    }
}

#[test]
fn error_messages() {
    assert_eq!(DiskImageError::CommandFailed("boom".to_string()).to_string(), "Command failed: boom");
    assert_eq!(DiskImageError::InvalidPath("/x".to_string()).to_string(), "Invalid path: /x");
    assert_eq!(DiskImageError::InvalidSize("1q".to_string()).to_string(), "Invalid size: 1q");
    assert_eq!(DiskImageError::DiskutilNotFound.to_string(), "diskutil command not found");
}
