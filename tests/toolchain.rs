use notion_core::error::ErrorDetails;
use notion_core::toolchain::{platform_from_texts, LazyToolchain, NodeVersion, PlatformSpec, Toolchain, Version};

fn v(text: &str) -> Version {
    Version::parse(text).ok().expect("valid version")
}

fn node(runtime: &str, npm: &str) -> NodeVersion {
    NodeVersion { runtime: v(runtime), npm: v(npm) }
}

fn texts(t: &Toolchain) -> Option<(String, Option<String>, Option<String>)> {
    t.platform_ref().map(|p| {
        (
            p.node_runtime.to_string(),
            p.npm.as_ref().map(|n| n.to_string()),
            p.yarn.as_ref().map(|y| y.to_string()),
        )
    })
}

#[test]
fn version_parse_and_text() {
    let x = v("10.13.0");
    assert_eq!((x.major, x.minor, x.patch), (10, 13, 0));
    assert_eq!(x.to_string(), "10.13.0");
    assert_eq!(v("1.2.3-beta.1+build.5").to_string(), "1.2.3-beta.1+build.5");
    assert_eq!(v("0.0.0").to_string(), "0.0.0");
    assert_eq!(v("18446744073709551615.0.1").major, u64::MAX);
}

#[test]
fn version_parse_error() {
    assert!(matches!(Version::parse("not a version"), Err(ErrorDetails::VersionParseError { .. })));
    assert!(matches!(Version::parse(""), Err(ErrorDetails::VersionParseError { .. })));
}

#[test]
fn version_equality_ignores_build() {
    assert!(v("1.7.0+a").same_as(&v("1.7.0+b")));
    assert!(!v("1.7.0-rc.1").same_as(&v("1.7.0")));
    assert!(!v("1.7.0").same_as(&v("1.7.1")));
}

#[test]
fn first_pin_on_empty_platform() {
    let mut t = Toolchain::new(None);
    assert!(t.platform_ref().is_none());
    assert_eq!(t.save(), "{}");
    assert!(t.set_active_node(node("10.13.0", "6.4.0")));
    assert_eq!(texts(&t), Some((String::from("10.13.0"), Some(String::from("6.4.0")), None)));
    let saved = t.save();
    assert_eq!(saved, "{\"node\":{\"runtime\":\"10.13.0\",\"npm\":\"6.4.0\"}}");
    let reloaded = Toolchain::new(
        platform_from_texts(Some((String::from("10.13.0"), Some(String::from("6.4.0")))), None)
            .ok()
            .unwrap(),
    );
    assert_eq!(texts(&reloaded), texts(&t));
    assert_eq!(reloaded.save(), saved);
}

#[test]
fn repeated_node_pin_saves_once() {
    let mut t = Toolchain::new(None);
    let mut writes = 0;
    for _ in 0..2 {
        if t.set_active_node(node("10.13.0", "6.4.0")) {
            writes += 1;
        }
    }
    assert_eq!(writes, 1);
    assert!(t.set_active_node(node("10.13.0", "6.5.0")));
    assert!(t.set_active_node(node("11.0.0", "6.5.0")));
}

#[test]
fn yarn_and_npm_without_platform_do_nothing() {
    let mut t = Toolchain::new(None);
    assert!(!t.set_active_yarn(v("1.7.0")));
    assert!(!t.set_active_npm(v("6.4.0")));
    assert!(t.platform_ref().is_none());
    assert_eq!(t.save(), "{}");
}

#[test]
fn repinning_same_yarn_is_no_write() {
    let spec = PlatformSpec { node_runtime: v("10.13.0"), npm: None, yarn: Some(v("1.7.0")) };
    let mut t = Toolchain::new(Some(spec));
    let before = t.save();
    assert!(!t.set_active_yarn(v("1.7.0")));
    assert_eq!(t.save(), before);
    assert!(t.set_active_yarn(v("1.9.4")));
    assert_eq!(t.save(), "{\"node\":{\"runtime\":\"10.13.0\"},\"yarn\":\"1.9.4\"}");
}

#[test]
fn npm_pin_changes_only_npm() {
    let spec = PlatformSpec { node_runtime: v("10.13.0"), npm: Some(v("6.4.0")), yarn: Some(v("1.7.0")) };
    let mut t = Toolchain::new(Some(spec));
    assert!(!t.set_active_npm(v("6.4.0")));
    assert!(t.set_active_npm(v("6.5.0")));
    assert_eq!(
        t.save(),
        "{\"node\":{\"runtime\":\"10.13.0\",\"npm\":\"6.5.0\"},\"yarn\":\"1.7.0\"}"
    );
}

#[test]
fn node_pin_keeps_yarn() {
    let spec = PlatformSpec { node_runtime: v("8.9.4"), npm: None, yarn: Some(v("1.7.0")) };
    let mut t = Toolchain::new(Some(spec));
    assert!(t.set_active_node(node("10.13.0", "6.4.0")));
    assert_eq!(
        texts(&t),
        Some((String::from("10.13.0"), Some(String::from("6.4.0")), Some(String::from("1.7.0"))))
    );
}

#[test]
fn platform_from_texts_cases() {
    assert!(matches!(platform_from_texts(None, Some(String::from("1.7.0"))), Ok(None)));
    let p = platform_from_texts(Some((String::from("10.13.0"), None)), Some(String::from("1.7.0")))
        .ok()
        .unwrap()
        .unwrap();
    assert_eq!(p.node_runtime.to_string(), "10.13.0");
    assert!(p.npm.is_none());
    assert_eq!(p.yarn.unwrap().to_string(), "1.7.0");
    assert!(matches!(
        platform_from_texts(Some((String::from("10.13.0"), Some(String::from("six")))), None),
        Err(ErrorDetails::VersionParseError { .. })
    ));
}

#[test]
fn lazy_toolchain_loads_once() {
    let mut lazy = LazyToolchain::new();
    assert!(!lazy.is_loaded());
    assert!(lazy.get().is_none());
    let failed = lazy.load_with(Err(ErrorDetails::PathError));
    assert!(matches!(failed, Err(ErrorDetails::PathError)));
    assert!(!lazy.is_loaded());
    assert!(lazy.load_with(Ok(Toolchain::new(None))).is_ok());
    assert!(lazy.is_loaded());
    assert!(lazy.get_mut().unwrap().set_active_node(node("10.13.0", "6.4.0")));
    let second = PlatformSpec { node_runtime: v("8.0.0"), npm: None, yarn: None };
    assert!(lazy.load_with(Ok(Toolchain::new(Some(second)))).is_ok());
    assert_eq!(lazy.get().unwrap().platform_ref().unwrap().node_runtime.to_string(), "10.13.0");
}

#[test]
fn saved_identifiers_are_escaped() {
    let odd = Version {
        major: 1,
        minor: 0,
        patch: 0,
        pre: vec![String::from("a\"b\\c")],
        build: vec![String::from("x\ny")],
    };
    assert_eq!(odd.to_string(), "1.0.0-a\"b\\c+x\ny");
    let t = Toolchain::new(Some(PlatformSpec { node_runtime: odd, npm: None, yarn: None }));
    assert_eq!(t.save(), "{\"node\":{\"runtime\":\"1.0.0-a\\\"b\\\\c+x\\u000ay\"}}");
}
