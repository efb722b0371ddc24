use qmkonnect::linux::{
    config_dir_path, decimal_to_hex, extract_attr_value, get_config_paths, normalize_hex_id,
    replace_all, rewrite_udev_rules,
};

const RULES: &str = "# QMKonnect udev rules\nSUBSYSTEM==\"hidraw\", ATTRS{idVendor}==\"feed\", ATTRS{idProduct}==\"0000\", MODE=\"0666\"\n";

#[test]
fn test_decimal_to_hex() {
    assert_eq!(decimal_to_hex(0xfeed), "feed");
    assert_eq!(decimal_to_hex(0), "0000");
    assert_eq!(decimal_to_hex(0x0a1b), "0a1b");
    assert_eq!(decimal_to_hex(0xffff), "ffff");
}

#[test]
fn test_normalize_hex_id() {
    assert_eq!(normalize_hex_id("0xFEED"), "feed");
    assert_eq!(normalize_hex_id("FEED"), "feed");
    assert_eq!(normalize_hex_id("feed"), "feed");
    assert_eq!(normalize_hex_id("0x0x12AB"), "12ab");
    // The prefix strip is case-sensitive, as the rewriting always
    // receives lowercase `0x` prefixes or none.
    assert_eq!(normalize_hex_id("0XFEED"), "0xfeed");
}

#[test]
fn test_extract_attr_value() {
    assert_eq!(extract_attr_value(RULES, "idVendor").unwrap(), "feed");
    assert_eq!(extract_attr_value(RULES, "idProduct").unwrap(), "0000");
    assert!(extract_attr_value(RULES, "idMissing").is_err());
    assert_eq!(
        extract_attr_value(RULES, "idMissing").unwrap_err(),
        "Could not find idMissing in udev rules"
    );
}

#[test]
fn test_extract_attr_value_skips_unclosed() {
    let text = "ATTRS{idVendor}==\"unterminated\nATTRS{idVendor}==\"cafe\"\n";
    assert_eq!(extract_attr_value(text, "idVendor").unwrap(), "cafe");
    let text = "ATTRS{idVendor}==\nATTRS{idVendor}==\"cafe\"\n";
    assert_eq!(extract_attr_value(text, "idVendor").unwrap(), "cafe");
}

#[test]
fn test_replace_all() {
    assert_eq!(replace_all("aaa", "a", "bb"), "bbbbbb");
    assert_eq!(replace_all("abcabc", "bc", "x"), "axax");
    assert_eq!(replace_all("abc", "zz", "x"), "abc");
    // Non-overlapping, scanned from the left.
    assert_eq!(replace_all("aaa", "aa", "b"), "ba");
}

#[test]
fn test_rewrite_udev_rules() {
    let updated = rewrite_udev_rules(RULES, "0xcafe", "0x1234").unwrap();
    assert_eq!(
        updated,
        "# QMKonnect udev rules\nSUBSYSTEM==\"hidraw\", ATTRS{idVendor}==\"cafe\", ATTRS{idProduct}==\"1234\", MODE=\"0666\"\n"
    );

    // Ids coming from the formatter are already normalized.
    let updated = rewrite_udev_rules(RULES, &decimal_to_hex(0xcafe), &decimal_to_hex(0x1234))
        .unwrap();
    assert!(updated.contains("ATTRS{idVendor}==\"cafe\""));
    assert!(updated.contains("ATTRS{idProduct}==\"1234\""));

    assert!(rewrite_udev_rules("no rules here\n", "0xcafe", "0x1234").is_err());
}

#[test]
fn test_get_config_paths_order() {
    let paths = get_config_paths(Some("/xdg"), Some("/home/u"));
    assert_eq!(
        paths,
        vec![
            "/xdg/qmk-notifier/config.toml".to_string(),
            "/home/u/.config/qmk-notifier/config.toml".to_string(),
            "/etc/qmk-notifier/config.toml".to_string(),
        ]
    );

    let paths = get_config_paths(None, Some("/home/u"));
    assert_eq!(
        paths,
        vec![
            "/home/u/.config/qmk-notifier/config.toml".to_string(),
            "/etc/qmk-notifier/config.toml".to_string(),
        ]
    );

    let paths = get_config_paths(None, None);
    assert_eq!(paths, vec!["/etc/qmk-notifier/config.toml".to_string()]);
}

#[test]
fn test_config_dir_path() {
    assert_eq!(config_dir_path(Some("/xdg"), Some("/home/u")).unwrap(), "/xdg/qmk-notifier");
    assert_eq!(
        config_dir_path(None, Some("/home/u")).unwrap(),
        "/home/u/.config/qmk-notifier"
    );
    assert_eq!(
        config_dir_path(None, None).unwrap_err(),
        "Could not determine configuration directory"
    );
}
