use rjni::ffi::{JNIError, JNIVersion};
use rjni::{latest_jvm_version, Classpath, JavaVMInitArgs, Options, Probe, Version};

fn joined(classpath: &Classpath, windows: bool) -> String {
    let mut text = String::new();
    classpath.build(&mut text, windows);
    text
}

#[test]
fn versions_map_to_the_interface_versions() {
    assert_eq!(Version::V11.ffi(), JNIVersion::JNI_VERSION_1_1);
    assert_eq!(Version::V16.ffi(), JNIVersion::JNI_VERSION_1_6);
    assert_eq!(Version::V18.ffi(), JNIVersion::JNI_VERSION_1_8);
    assert_eq!(Version::V14.code(), 0x0001_0004);
    assert_eq!(Version::V18.code(), 0x0001_0008);
    for version in [
        Version::V11,
        Version::V12,
        Version::V14,
        Version::V15,
        Version::V16,
        Version::V17,
        Version::V18,
    ] {
        assert_eq!(Version::from_ffi(version.ffi()), version);
    }
}

#[test]
fn the_search_starts_below_the_latest_version() {
    assert_eq!(latest_jvm_version(None), Probe::Try(Version::V17));
}

#[test]
fn the_search_goes_down_one_version_at_a_time() {
    let mut tried = Vec::new();
    let mut probe = latest_jvm_version(None);
    while let Probe::Try(version) = probe {
        tried.push(version);
        probe = latest_jvm_version(Some((version, JNIError::JNI_EVERSION)));
    }
    assert_eq!(probe, Probe::Unsupported);
    assert_eq!(
        tried,
        vec![
            Version::V17,
            Version::V16,
            Version::V15,
            Version::V14,
            Version::V12,
            Version::V11
        ]
    );
}

#[test]
fn the_search_ends_at_the_first_supported_version() {
    assert_eq!(
        latest_jvm_version(Some((Version::V16, JNIError::JNI_OK))),
        Probe::Found(Version::V16)
    );
    assert_eq!(
        latest_jvm_version(Some((Version::V11, JNIError::JNI_OK))),
        Probe::Found(Version::V11)
    );
    assert_eq!(
        latest_jvm_version(Some((Version::V12, JNIError::JNI_ERR))),
        Probe::Try(Version::V11)
    );
    assert_eq!(
        latest_jvm_version(Some((Version::V11, JNIError::JNI_ENOMEM))),
        Probe::Unsupported
    );
}

#[test]
fn an_empty_classpath_is_empty_text() {
    assert_eq!(joined(&Classpath::new(), false), "");
    assert_eq!(joined(&Classpath::new(), true), "");
}

#[test]
fn each_path_is_followed_by_the_separator() {
    let classpath = Classpath::new().add("/thing").add("/other/archive.jar");
    assert_eq!(joined(&classpath, false), "/thing:/other/archive.jar:");
    assert_eq!(joined(&classpath, true), "/thing;/other/archive.jar;");
}

#[test]
fn the_classpath_is_appended_to_what_is_there() {
    let classpath = Classpath::new().add(".");
    let mut text = String::from("-Djava.class.path=");
    classpath.build(&mut text, false);
    assert_eq!(text, "-Djava.class.path=.:");
}

#[test]
fn empty_arguments() {
    let args = JavaVMInitArgs::empty();
    assert_eq!(args.version, JNIVersion::JNI_VERSION_1_8);
    assert_eq!(args.nOptions, 0);
    assert!(args.options.is_empty());
    assert_eq!(args.ignoreUnrecognized, 1);
}

#[test]
fn new_options_build_the_classpath_option_only() {
    let args = Options::new().build(false).unwrap();
    assert_eq!(args.version, JNIVersion::JNI_VERSION_1_1);
    assert_eq!(args.options, vec!["-Djava.class.path=".to_string()]);
    assert_eq!(args.nOptions, 1);
    assert_eq!(args.ignoreUnrecognized, 1);
}

#[test]
fn all_options_in_their_order() {
    let args = Options::new()
        .version(Version::V16)
        .classpath(Classpath::new().add("/a").add("/b"))
        .initial_heap_size(1024)
        .max_heap_size(1073741824)
        .ignore_unrecognized_arguments(false)
        .custom("-verbose:gc")
        .custom("-Dkey=value")
        .custom("-ea")
        .build(false).unwrap();
    assert_eq!(args.version, JNIVersion::JNI_VERSION_1_6);
    assert_eq!(
        args.options,
        vec![
            "-Xms1024".to_string(),
            "-Xmx1073741824".to_string(),
            "-Djava.class.path=/a:/b:".to_string(),
            "-ea".to_string(),
            "-Dkey=value".to_string(),
            "-verbose:gc".to_string(),
        ]
    );
    assert_eq!(args.nOptions, 6);
    assert_eq!(args.ignoreUnrecognized, 0);
}

#[test]
fn a_heap_size_of_zero_is_left_out() {
    let args = Options::new().initial_heap_size(64).initial_heap_size(0).max_heap_size(7).build(true).unwrap();
    assert_eq!(
        args.options,
        vec!["-Xmx7".to_string(), "-Djava.class.path=".to_string()]
    );
    assert_eq!(args.nOptions, 2);
}

#[test]
fn heap_sizes_are_written_in_decimal() {
    for size in [1usize, 9, 10, 11, 99, 100, 101, 4096, 1_000_000, 123_456_789, usize::MAX] {
        let args = Options::new().initial_heap_size(size).build(false).unwrap();
        assert_eq!(args.options[0], format!("-Xms{}", size));
    }
}

#[test]
fn the_separator_follows_the_platform() {
    let options = Options::new().classpath(Classpath::new().add("C:\\classes"));
    let args = options.build(true).unwrap();
    assert_eq!(args.options, vec!["-Djava.class.path=C:\\classes;".to_string()]);
}

#[test]
fn recommended_options_take_version_and_flag_from_the_runtime() {
    let mut args = JavaVMInitArgs::empty();
    args.version = JNIVersion::JNI_VERSION_1_6;
    args.ignoreUnrecognized = 0;
    let built = Options::recommended(&args).build(false).unwrap();
    assert_eq!(built.version, JNIVersion::JNI_VERSION_1_6);
    assert_eq!(built.ignoreUnrecognized, 0);
    assert_eq!(built.options, vec!["-Djava.class.path=".to_string()]);

    let kept = Options::recommended(&JavaVMInitArgs::empty()).build(false).unwrap();
    assert_eq!(kept.version, JNIVersion::JNI_VERSION_1_8);
    assert_eq!(kept.ignoreUnrecognized, 1);

    args.ignoreUnrecognized = 2;
    assert_eq!(Options::recommended(&args).build(false).unwrap().ignoreUnrecognized, 0);
}
