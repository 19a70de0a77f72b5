use webview_shell::address::Address;
use webview_shell::config::{Args, LaunchConfig};
use webview_shell::shell::{
    greet_text, initial_size, run, run_app, Extent, Navigation, Shell, WindowSize, STOCK_HEIGHT,
    STOCK_WIDTH, WINDOW_LABEL, WINDOW_TITLE,
};

fn list(entries: &[&str]) -> Option<Vec<String>> {
    Some(entries.iter().map(|entry| entry.to_string()).collect())
}

fn bare() -> Args<f64> {
    Args {
        url: None,
        width: None,
        height: None,
        fullscreen: false,
        minimized: false,
        allowed_domains: None,
        api_domains: None,
        no_resizable: false,
        frameless: false,
    }
}

fn address(text: &str) -> Address {
    Address::parse(text).expect("an absolute URL")
}

fn blocked(target: &str) -> Navigation {
    Navigation::Cancel { diagnostic: format!("Blocked navigation to: {target}") }
}

#[test]
fn bare_arguments_give_the_stock_shell() {
    let shell = run(bare());
    assert_eq!(shell.start(), &Address::local());
    assert_eq!(shell.start().as_str(), "tauri://localhost");
    assert_eq!(shell.size(), None);
    assert!(!shell.fullscreen());
    assert!(shell.resizable());
    assert!(shell.decorations());
    assert!(!shell.minimized());
    assert!(!shell.filters_navigation());
    assert!(!shell.reads_origin());
}

#[test]
fn window_is_main_and_titled() {
    assert_eq!(WINDOW_LABEL, "main");
    assert_eq!(WINDOW_TITLE, "Tauri App");
}

#[test]
fn arguments_resolve_field_by_field() {
    let args = Args {
        url: Some("https://Example.com".to_string()),
        width: Some(1024.5),
        height: Some(768.0),
        fullscreen: true,
        minimized: true,
        allowed_domains: list(&["example.com"]),
        api_domains: list(&["api.example.com"]),
        no_resizable: true,
        frameless: true,
    };
    let config = LaunchConfig::from_args(args.clone());
    assert_eq!(
        config,
        LaunchConfig {
            target_url: address("https://example.com/"),
            width: Some(1024.5),
            height: Some(768.0),
            fullscreen: true,
            minimized: true,
            resizable: false,
            has_frame: false,
            allowed_navigation_domains: list(&["example.com"]),
            allowed_api_domains: list(&["api.example.com"]),
        }
    );
    let shell = run_app(config);
    assert_eq!(shell, run(args));
    assert_eq!(shell.start().as_str(), "https://example.com/");
    assert_eq!(shell.start().host(), Some("example.com"));
    assert_eq!(
        shell.size(),
        Some(&WindowSize { width: Extent::Requested(1024.5), height: Extent::Requested(768.0) })
    );
    assert!(shell.fullscreen());
    assert!(!shell.resizable());
    assert!(!shell.decorations());
    assert!(shell.minimized());
    assert!(shell.filters_navigation());
    assert!(shell.reads_origin());
}

#[test]
fn each_switch_stands_alone() {
    let shell = run(Args { fullscreen: true, ..bare() });
    assert!(shell.fullscreen() && shell.resizable() && shell.decorations() && !shell.minimized());
    let shell = run(Args { minimized: true, ..bare() });
    assert!(!shell.fullscreen() && shell.resizable() && shell.decorations() && shell.minimized());
    let shell = run(Args { no_resizable: true, ..bare() });
    assert!(!shell.fullscreen() && !shell.resizable() && shell.decorations() && !shell.minimized());
    let shell = run(Args { frameless: true, ..bare() });
    assert!(!shell.fullscreen() && shell.resizable() && !shell.decorations() && !shell.minimized());
}

#[test]
fn malformed_url_falls_back_to_the_local_start_page() {
    for text in ["", "example.com", "not a url", "//example.com/", "https://"] {
        let shell = run(Args { url: Some(text.to_string()), ..bare() });
        assert_eq!(shell.start(), &Address::local(), "{text:?}");
    }
}

#[test]
fn well_formed_url_is_loaded_as_parsed() {
    let shell = run(Args { url: Some("http://localhost:3000".to_string()), ..bare() });
    assert_eq!(shell.start().as_str(), "http://localhost:3000/");
    assert_eq!(shell.start().host(), Some("localhost"));
    let shell = run(Args { url: Some("https://google.com".to_string()), ..bare() });
    assert_eq!(shell.start().as_str(), "https://google.com/");
    assert_eq!(shell.start().host(), Some("google.com"));
}

#[test]
fn missing_side_gets_its_stock_length() {
    assert_eq!(STOCK_WIDTH, 800);
    assert_eq!(STOCK_HEIGHT, 600);
    assert_eq!(initial_size::<f64>(None, None), None);
    assert_eq!(
        initial_size(Some(1280.0), Some(720.0)),
        Some(WindowSize { width: Extent::Requested(1280.0), height: Extent::Requested(720.0) })
    );
    assert_eq!(
        initial_size(Some(1280.0), None),
        Some(WindowSize { width: Extent::Requested(1280.0), height: Extent::Stock(600) })
    );
    assert_eq!(
        initial_size(None, Some(720.0)),
        Some(WindowSize { width: Extent::Stock(800), height: Extent::Requested(720.0) })
    );
}

#[test]
fn shell_size_follows_the_arguments() {
    let shell = run(Args { width: Some(640.0), ..bare() });
    assert_eq!(
        shell.size(),
        Some(&WindowSize { width: Extent::Requested(640.0), height: Extent::Stock(600) })
    );
    let shell = run(Args { height: Some(480.0), ..bare() });
    assert_eq!(
        shell.size(),
        Some(&WindowSize { width: Extent::Stock(800), height: Extent::Requested(480.0) })
    );
}

#[test]
fn navigation_without_a_list_is_always_followed() {
    let shell = run(bare());
    assert_eq!(shell.on_navigation("https://evil.com/", Some("evil.com")), Navigation::Follow);
    assert_eq!(shell.on_navigation("data:text/plain,Stuff", None), Navigation::Follow);
}

#[test]
fn navigation_is_held_to_the_navigation_list() {
    let shell = run(Args { allowed_domains: list(&["example.com", "github.com"]), ..bare() });
    assert_eq!(
        shell.on_navigation("https://docs.example.com/guide", Some("docs.example.com")),
        Navigation::Follow
    );
    assert_eq!(shell.on_navigation("https://github.com/", Some("github.com")), Navigation::Follow);
    assert_eq!(
        shell.on_navigation("https://evil.com/", Some("evil.com")),
        blocked("https://evil.com/")
    );
    assert_eq!(
        shell.on_navigation("https://example.com.evil.com/", Some("example.com.evil.com")),
        blocked("https://example.com.evil.com/")
    );
    assert_eq!(
        shell.on_navigation("data:text/plain,Stuff", None),
        blocked("data:text/plain,Stuff")
    );
}

#[test]
fn navigation_is_not_held_to_the_api_list() {
    let shell = run(Args { api_domains: list(&["example.com"]), ..bare() });
    assert_eq!(shell.on_navigation("https://evil.com/", Some("evil.com")), Navigation::Follow);
    assert!(!shell.filters_navigation());
    assert!(shell.reads_origin());
}

#[test]
fn denied_navigation_leaves_the_window_where_it_is() {
    let shell = run(Args {
        url: Some("https://example.com/start".to_string()),
        allowed_domains: list(&["example.com"]),
        ..bare()
    });
    let mut window = shell.open();
    assert_eq!(window.location().as_str(), "https://example.com/start");

    let verdict = shell.navigate(&mut window, address("https://evil.com/"));
    assert_eq!(verdict, blocked("https://evil.com/"));
    assert_eq!(window.location().as_str(), "https://example.com/start");
    assert_eq!(window.location(), &address("https://example.com/start"));

    let verdict = shell.navigate(&mut window, address("https://docs.example.com/a"));
    assert_eq!(verdict, Navigation::Follow);
    assert_eq!(window.location().as_str(), "https://docs.example.com/a");

    let verdict = shell.navigate(&mut window, address("https://example.com.evil.com/"));
    assert_eq!(verdict, blocked("https://example.com.evil.com/"));
    assert_eq!(window.location().as_str(), "https://docs.example.com/a");

    let verdict = shell.navigate(&mut window, address("mailto:someone@example.com"));
    assert_eq!(verdict, blocked("mailto:someone@example.com"));
    assert_eq!(window.location().as_str(), "https://docs.example.com/a");
}

#[test]
fn greeting_is_spelled_out() {
    assert_eq!(greet_text("World"), "Hello, World! You've been greeted from Rust!");
    assert_eq!(greet_text(""), "Hello, ! You've been greeted from Rust!");
}

#[test]
fn greet_without_a_list_always_answers() {
    let shell = run(bare());
    let hello = Ok("Hello, Ann! You've been greeted from Rust!".to_string());
    assert_eq!(shell.greet("Ann", Some("evil.com")), hello);
    assert_eq!(shell.greet("Ann", None), hello);
    assert_eq!(shell.authorize(Some("evil.com")), Ok(()));
    assert_eq!(shell.authorize(None), Ok(()));
}

#[test]
fn greet_is_held_to_the_api_list() {
    let shell = run(Args { api_domains: list(&["example.com"]), ..bare() });
    assert_eq!(
        shell.greet("Ann", Some("app.example.com")),
        Ok("Hello, Ann! You've been greeted from Rust!".to_string())
    );
    assert_eq!(
        shell.greet("Ann", Some("evil.com")),
        Err("API access denied for domain: evil.com".to_string())
    );
    assert_eq!(
        shell.greet("Ann", Some("example.com.evil.com")),
        Err("API access denied for domain: example.com.evil.com".to_string())
    );
    assert_eq!(shell.greet("Ann", None), Err("API access denied for domain: ".to_string()));
    assert_eq!(shell.authorize(Some("app.example.com")), Ok(()));
    assert_eq!(
        shell.authorize(Some("evil.com")),
        Err("API access denied for domain: evil.com".to_string())
    );
}

#[test]
fn greet_is_not_held_to_the_navigation_list() {
    let shell = run(Args { allowed_domains: list(&["example.com"]), ..bare() });
    assert_eq!(
        shell.greet("Ann", Some("evil.com")),
        Ok("Hello, Ann! You've been greeted from Rust!".to_string())
    );
}

#[test]
fn privileged_call_from_a_page_off_the_list_is_refused() {
    let shell: Shell<f64> = run(Args {
        url: Some("https://evil.com/".to_string()),
        api_domains: list(&["example.com"]),
        ..bare()
    });
    let mut window = shell.open();
    assert_eq!(
        shell.greet_from(&window, "Ann"),
        Err("API access denied for domain: evil.com".to_string())
    );
    assert_eq!(shell.navigate(&mut window, address("https://app.example.com/")), Navigation::Follow);
    assert_eq!(
        shell.greet_from(&window, "Ann"),
        Ok("Hello, Ann! You've been greeted from Rust!".to_string())
    );
    assert_eq!(shell.navigate(&mut window, address("data:text/plain,Stuff")), Navigation::Follow);
    assert_eq!(
        shell.greet_from(&window, "Ann"),
        Err("API access denied for domain: ".to_string())
    );
}

#[test]
fn dimensions_may_be_of_any_type() {
    let args: Args<u32> = Args {
        url: None,
        width: Some(1024),
        height: None,
        fullscreen: false,
        minimized: false,
        allowed_domains: None,
        api_domains: None,
        no_resizable: false,
        frameless: false,
    };
    assert_eq!(
        run(args).size(),
        Some(&WindowSize { width: Extent::Requested(1024), height: Extent::Stock(600) })
    );
}
