use apitool::request::Request;
use apitool::selection::{ConfigType, PlatformSelection, Selections};
use apitool::Config;

#[test]
fn from_indices_sets_each_platform() {
    let s = PlatformSelection::from_indices(&vec![0, 1, 2]);
    assert!(s.windows && s.mac && s.linux);
    let s = PlatformSelection::from_indices(&vec![1]);
    assert!(!s.windows && s.mac && !s.linux);
    let s = PlatformSelection::from_indices(&vec![]);
    assert!(!s.windows && !s.mac && !s.linux);
}

#[test]
fn from_indices_ignores_order_and_repetition() {
    let a = PlatformSelection::from_indices(&vec![2, 1]);
    let b = PlatformSelection::from_indices(&vec![1, 2, 2, 1]);
    assert_eq!(a, b);
}

#[test]
fn zero_selected_platforms_is_detected() {
    // The caller must stop with an error before building a request.
    let none = PlatformSelection::from_indices(&vec![]);
    assert!(none.is_empty());
    let one = PlatformSelection::from_indices(&vec![2]);
    assert!(!one.is_empty());
}

#[test]
fn selected_names_come_in_canonical_order() {
    let s = PlatformSelection { windows: true, mac: false, linux: true };
    assert_eq!(s.names(), vec!["windows", "linux"]);
    let s = PlatformSelection { windows: false, mac: true, linux: false };
    assert_eq!(s.names(), vec!["mac"]);
}

#[test]
fn config_type_from_prompt_index() {
    assert_eq!(ConfigType::from_index(0), ConfigType::Omitted);
    assert_eq!(ConfigType::from_index(1), ConfigType::Computer);
    assert_eq!(ConfigType::from_index(2), ConfigType::User);
    assert_eq!(ConfigType::Computer.value(), "computer");
    assert_eq!(ConfigType::User.value(), "user");
}

#[test]
fn config_requires_both_values_non_empty() {
    let ok = Config::new(String::from("api.example.com"), String::from("https://x"));
    assert!(ok.check());
    let no_host = Config::new(String::new(), String::from("https://x"));
    assert!(!no_host.check());
    let no_url = Config::new(String::from("api.example.com"), String::new());
    assert!(!no_url.check());
}

#[test]
fn request_has_method_get_and_fixed_headers() {
    let config = Config::new(
        String::from("api.example.com"),
        String::from("https://api.example.com/v1/packages"),
    );
    let sel = Selections {
        auth_token: String::from("token-123"),
        platforms: PlatformSelection { windows: false, mac: true, linux: false },
        config_type: ConfigType::Omitted,
        search_package: String::new(),
    };
    let request = Request::new(&config, &sel);
    assert_eq!(request.method(), "GET");
    assert_eq!(request.url, "https://api.example.com/v1/packages?platform%5B%5D=mac");
    assert_eq!(
        request.headers,
        vec![
            (String::from("Authorization"), String::from("token-123")),
            (String::from("Accept"), String::from("*/*")),
            (String::from("Host"), String::from("api.example.com")),
        ]
    );
}
