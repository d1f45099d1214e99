use checkup::asset_name::{extract_extension, rename_to_latest, split_stem_ext};

/// The naming rule written with the standard library's string methods, to
/// hold the library's results against.
fn std_split(filename: &str) -> (&str, &str) {
    let known = [
        ".tar.gz.sha256", ".tar.xz.sha256", ".tar.bz2.sha256", ".tar.zst.sha256", ".zip.sha256",
        ".xz.sha256", ".gz.sha256", ".bz2.sha256", ".xz.asc", ".tar.gz", ".tar.xz", ".tar.bz2",
        ".tar.zst", ".xz", ".gz", ".bz2", ".zst", ".zip", ".sha256", ".sha512", ".exe", ".msi",
        ".deb", ".rpm",
    ];
    for ext in known {
        if let Some(stem) = filename.strip_suffix(ext) {
            return (stem, ext);
        }
    }
    if let Some(pos) = filename.rfind('.') {
        let suffix = &filename[pos + 1..];
        if !suffix.is_empty()
            && !suffix.contains('-')
            && !suffix.chars().all(|c| c.is_ascii_digit())
        {
            return (&filename[..pos], &filename[pos..]);
        }
    }
    (filename, "")
}

fn std_rename(filename: &str) -> String {
    let (stem, ext) = std_split(filename);
    let sep = if stem.contains('-') { '-' } else { '_' };
    let parts: Vec<&str> = stem.split(sep).collect();
    let version = parts.iter().position(|p| {
        let p = p.strip_prefix('v').unwrap_or(p);
        let mut fields = p.split('.');
        fields.next().map_or(false, |s| s.parse::<u64>().is_ok())
            && fields.next().map_or(false, |s| s.parse::<u64>().is_ok())
    });
    let kept = match version {
        Some(i) => &parts[i + 1..],
        None => &parts[1..],
    };
    if kept.is_empty() {
        format!("latest{}", ext)
    } else {
        format!("latest{}{}{}", sep, kept.join(&sep.to_string()), ext)
    }
}

fn std_extension(name: &str) -> String {
    for ext in [".tar.gz", ".tar.bz2", ".tar.xz"] {
        if name.ends_with(ext) {
            return ext[1..].to_string();
        }
    }
    match name.rfind('.') {
        Some(pos) => name[pos + 1..].to_string(),
        None => name.to_string(),
    }
}

fn sample_names() -> Vec<&'static str> {
    vec![
        "",
        ".",
        "..",
        "-",
        "_",
        "v",
        "+",
        "a",
        ".gz",
        ".tar.gz",
        "tar.gz",
        "name.",
        "name.-",
        "name.1",
        "name.12a",
        "name.a-b",
        "x.123",
        "a.b.c",
        "file.AppImage",
        "archive.tar.gz",
        "archive.tar.gz.sha256",
        "archive.sha256.tar.gz",
        "forgejo-14.0.2-linux-amd64",
        "forgejo-14.0.2-linux-amd64.xz",
        "forgejo-14.0.2-linux-amd64.xz.sha256",
        "forgejo-14.0.2-linux-arm-6.xz.sha256",
        "forgejo-src-14.0.2.tar.gz.sha256",
        "bat-v0.26.1-x86_64-unknown-linux-gnu.tar.gz",
        "linux-6.19.2.tar.gz",
        "checkup-windows-x86_64.exe",
        "bat_0.26.1_amd64.deb",
        "bat_0.26.1_arm64.deb",
        "app-v1-linux.zip",
        "app-vv1.2-linux.zip",
        "app-v1.2-linux.zip",
        "app-V1.2-linux.zip",
        "app-+1.+2-linux",
        "app-1.-2-linux",
        "app-1..2-linux",
        "app-.1.2-linux",
        "app-1.2.-linux",
        "app-00001.000-linux",
        "app-18446744073709551615.0-x",
        "app-18446744073709551616.0-x",
        "app-0.18446744073709551616-x",
        "app-99999999999999999999999999.1-x",
        "app-1.2x-linux",
        "app--1.2--linux",
        "app-1.2-",
        "-1.2-",
        "1.2",
        "v1.2",
        "1.2-3.4-rest",
        "tool_linux_amd64",
        "tool_1.0_linux-amd64.rpm",
        "tool__1.0__x.msi",
        "a-b_c-1.0_d-e.zst",
        "grab-linux-x86_64",
        "v0.1.0.tar.gz",
        "v0.1.0.zip",
        "package-1.0.0.zip",
        "app-v2.0.0.AppImage",
        "data.tar.bz2",
        "data.tar.xz",
        "data.tar.zst",
        "naïve-1.0-café.tar.gz",
        "日本語-2.5.1-リリース.zip",
        "über_3.4_größe.deb",
        "emoji-🎉.1.0-x.exe",
        "sums.sha512",
        "key.xz.asc",
        "a.b.c.d.e.f",
        "trailing.dot.",
        "many---dashes",
        "x-٣.٤-y",
    ]
}

#[test]
fn worked_examples_of_rename() {
    assert_eq!(rename_to_latest("forgejo-14.0.2-linux-amd64"), "latest-linux-amd64");
    assert_eq!(rename_to_latest("forgejo-14.0.2-linux-amd64.xz"), "latest-linux-amd64.xz");
    assert_eq!(
        rename_to_latest("forgejo-14.0.2-linux-amd64.xz.sha256"),
        "latest-linux-amd64.xz.sha256"
    );
    assert_eq!(
        rename_to_latest("bat-v0.26.1-x86_64-unknown-linux-gnu.tar.gz"),
        "latest-x86_64-unknown-linux-gnu.tar.gz"
    );
    assert_eq!(rename_to_latest("linux-6.19.2.tar.gz"), "latest.tar.gz");
    assert_eq!(rename_to_latest("checkup-windows-x86_64.exe"), "latest-windows-x86_64.exe");
    assert_eq!(rename_to_latest("bat_0.26.1_amd64.deb"), "latest_amd64.deb");
}

#[test]
fn literal_vectors_of_normalization() {
    assert_eq!(
        rename_to_latest("forgejo-14.0.2-linux-amd64.xz.sha256"),
        "latest-linux-amd64.xz.sha256"
    );
    assert_eq!(rename_to_latest("linux-6.19.2.tar.gz"), "latest.tar.gz");
    assert_eq!(rename_to_latest("bat_0.26.1_amd64.deb"), "latest_amd64.deb");
    assert_eq!(split_stem_ext("bat-v0.26.1-x86_64.tar.gz"), ("bat-v0.26.1-x86_64", ".tar.gz"));
}

#[test]
fn rename_of_further_release_files() {
    assert_eq!(
        rename_to_latest("forgejo-14.0.2-linux-arm-6.xz.sha256"),
        "latest-linux-arm-6.xz.sha256"
    );
    assert_eq!(rename_to_latest("forgejo-src-14.0.2.tar.gz.sha256"), "latest.tar.gz.sha256");
    assert_eq!(rename_to_latest("bat_0.26.1_arm64.deb"), "latest_arm64.deb");
}

#[test]
fn rename_without_a_version_drops_the_first_segment() {
    assert_eq!(rename_to_latest("checkup-windows-x86_64"), "latest-windows-x86_64");
    assert_eq!(rename_to_latest("tool_linux_amd64"), "latest_linux_amd64");
    assert_eq!(rename_to_latest("single"), "latest");
    assert_eq!(rename_to_latest(""), "latest");
}

#[test]
fn rename_takes_the_first_version_segment() {
    assert_eq!(rename_to_latest("1.2-3.4-rest"), "latest-3.4-rest");
    assert_eq!(rename_to_latest("app-1.2-"), "latest-");
    assert_eq!(rename_to_latest("app--1.2--linux"), "latest--linux");
}

#[test]
fn version_fields_must_be_numbers_that_fit() {
    assert_eq!(rename_to_latest("app-18446744073709551615.0-x"), "latest-x");
    assert_eq!(
        rename_to_latest("app-18446744073709551616.0-x"),
        "latest-18446744073709551616.0-x"
    );
    assert_eq!(rename_to_latest("app-+1.+2-linux"), "latest-linux");
    assert_eq!(rename_to_latest("app-1..2-linux"), "latest-1..2-linux");
    assert_eq!(rename_to_latest("app-v1-linux.zip"), "latest-v1-linux.zip");
    assert_eq!(rename_to_latest("app-vv1.2-linux.zip"), "latest-vv1.2-linux.zip");
}

#[test]
fn separator_is_a_dash_where_the_stem_has_one() {
    assert_eq!(rename_to_latest("tool_1.0_linux-amd64.rpm"), "latest-amd64.rpm");
    assert_eq!(rename_to_latest("tool__1.0__x.msi"), "latest__x.msi");
}

#[test]
fn split_prefers_the_most_specific_known_extension() {
    assert_eq!(split_stem_ext("a.tar.gz.sha256"), ("a", ".tar.gz.sha256"));
    assert_eq!(split_stem_ext("a.gz.sha256"), ("a", ".gz.sha256"));
    assert_eq!(split_stem_ext("a.sha256"), ("a", ".sha256"));
    assert_eq!(split_stem_ext("a.tar.zst"), ("a", ".tar.zst"));
    assert_eq!(split_stem_ext("a.zst"), ("a", ".zst"));
    assert_eq!(split_stem_ext("a.xz.asc"), ("a", ".xz.asc"));
    assert_eq!(split_stem_ext(".rpm"), ("", ".rpm"));
}

#[test]
fn split_falls_back_to_the_last_dot() {
    assert_eq!(split_stem_ext("file.AppImage"), ("file", ".AppImage"));
    assert_eq!(split_stem_ext("a.b.c"), ("a.b", ".c"));
    assert_eq!(split_stem_ext("x.12a"), ("x", ".12a"));
}

#[test]
fn split_rejects_version_fragments() {
    assert_eq!(split_stem_ext("linux-6.19.2"), ("linux-6.19.2", ""));
    assert_eq!(
        split_stem_ext("forgejo-14.0.2-linux-amd64"),
        ("forgejo-14.0.2-linux-amd64", "")
    );
    assert_eq!(split_stem_ext("name."), ("name.", ""));
    assert_eq!(split_stem_ext("noext"), ("noext", ""));
    assert_eq!(split_stem_ext(""), ("", ""));
}

#[test]
fn split_parts_add_up_to_the_name() {
    for name in sample_names() {
        let (stem, ext) = split_stem_ext(name);
        assert_eq!(format!("{}{}", stem, ext), name);
    }
}

#[test]
fn split_agrees_with_the_standard_library() {
    for name in sample_names() {
        assert_eq!(split_stem_ext(name), std_split(name), "for {:?}", name);
    }
}

#[test]
fn rename_agrees_with_the_standard_library() {
    for name in sample_names() {
        assert_eq!(rename_to_latest(name), std_rename(name), "for {:?}", name);
    }
}

#[test]
fn extension_of_plain_and_double_suffixes() {
    assert_eq!(extract_extension("v0.1.0.tar.gz"), "tar.gz");
    assert_eq!(extract_extension("data.tar.bz2"), "tar.bz2");
    assert_eq!(extract_extension("data.tar.xz"), "tar.xz");
    assert_eq!(extract_extension("package-1.0.0.zip"), "zip");
    assert_eq!(extract_extension("app-v2.0.0.AppImage"), "AppImage");
    assert_eq!(extract_extension("grab-linux-x86_64"), "grab-linux-x86_64");
    assert_eq!(extract_extension("data.tar.zst"), "zst");
    assert_eq!(extract_extension("name."), "");
    assert_eq!(extract_extension(""), "");
}

#[test]
fn extension_agrees_with_the_standard_library() {
    for name in sample_names() {
        assert_eq!(extract_extension(name), std_extension(name), "for {:?}", name);
    }
}
