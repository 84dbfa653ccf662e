use apitool::selection::{ConfigType, Platform, PlatformSelection, Selections};
use apitool::url::build_url;

fn sel(
    windows: bool,
    mac: bool,
    linux: bool,
    config_type: ConfigType,
    search: &str,
) -> Selections {
    Selections {
        auth_token: String::new(),
        platforms: PlatformSelection { windows, mac, linux },
        config_type,
        search_package: String::from(search),
    }
}

const BASE: &str = "https://api.example.com/v1/packages";

#[test]
fn one_platform_param_per_selected_platform() {
    let cases: [(bool, bool, bool, &str); 7] = [
        (true, false, false, "?platform%5B%5D=windows"),
        (false, true, false, "?platform%5B%5D=mac"),
        (false, false, true, "?platform%5B%5D=linux"),
        (true, true, false, "?platform%5B%5D=windows&platform%5B%5D=mac"),
        (true, false, true, "?platform%5B%5D=windows&platform%5B%5D=linux"),
        (false, true, true, "?platform%5B%5D=mac&platform%5B%5D=linux"),
        (
            true,
            true,
            true,
            "?platform%5B%5D=windows&platform%5B%5D=mac&platform%5B%5D=linux",
        ),
    ];
    for (w, m, l, tail) in cases {
        let s = sel(w, m, l, ConfigType::Omitted, "");
        let url = build_url(BASE, &s);
        assert_eq!(url, format!("{}{}", BASE, tail));
        let selected = (w as usize) + (m as usize) + (l as usize);
        assert_eq!(url.matches("platform%5B%5D=").count(), selected);
    }
}

#[test]
fn platform_order_is_fixed_not_selection_order() {
    // However the prompt indices arrive, windows comes before mac before linux.
    let a = PlatformSelection::from_indices(&vec![2, 0]);
    let b = PlatformSelection::from_indices(&vec![0, 2]);
    assert_eq!(a, b);
    let s = Selections {
        auth_token: String::new(),
        platforms: a,
        config_type: ConfigType::Omitted,
        search_package: String::new(),
    };
    assert_eq!(
        build_url(BASE, &s),
        format!("{}?platform%5B%5D=windows&platform%5B%5D=linux", BASE)
    );
}

#[test]
fn config_type_omitted_emits_no_parameter() {
    let s = sel(true, false, false, ConfigType::Omitted, "");
    let url = build_url(BASE, &s);
    assert!(!url.contains("configType"));
}

#[test]
fn config_type_computer_and_user_emit_exactly_one_parameter() {
    let s = sel(true, false, false, ConfigType::Computer, "");
    let url = build_url(BASE, &s);
    assert_eq!(url.matches("configType=").count(), 1);
    assert!(url.ends_with("&configType=computer"));

    let s = sel(true, false, false, ConfigType::User, "");
    let url = build_url(BASE, &s);
    assert_eq!(url.matches("configType=").count(), 1);
    assert!(url.ends_with("&configType=user"));
}

#[test]
fn empty_search_package_emits_no_parameter() {
    let s = sel(false, true, false, ConfigType::Omitted, "");
    let url = build_url(BASE, &s);
    assert!(!url.contains("searchPackage"));
}

#[test]
fn search_package_is_percent_encoded() {
    let s = sel(false, true, false, ConfigType::Omitted, "a b&c=d");
    let url = build_url(BASE, &s);
    assert_eq!(url.matches("searchPackage=").count(), 1);
    assert!(url.ends_with("&searchPackage=a%20b%26c%3Dd"));
}

#[test]
fn example_single_mac_no_options() {
    let s = sel(false, true, false, ConfigType::Omitted, "");
    assert_eq!(
        build_url(BASE, &s),
        "https://api.example.com/v1/packages?platform%5B%5D=mac"
    );
}

#[test]
fn example_windows_linux_user_7zip() {
    let s = sel(true, false, true, ConfigType::User, "7zip");
    assert_eq!(
        build_url(BASE, &s),
        "https://api.example.com/v1/packages?platform%5B%5D=windows&platform%5B%5D=linux&configType=user&searchPackage=7zip"
    );
}

#[test]
fn no_parameters_leaves_base_url_unmodified() {
    let s = sel(false, false, false, ConfigType::Omitted, "");
    assert_eq!(build_url(BASE, &s), BASE);
}

#[test]
fn platform_names_match_query_values() {
    assert_eq!(Platform::Windows.name(), "windows");
    assert_eq!(Platform::Mac.name(), "mac");
    assert_eq!(Platform::Linux.name(), "linux");
}
