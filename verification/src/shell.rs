//! The window shell: what the windowing host is asked for, and what it is
//! answered when it asks whether the window may navigate and whether a
//! page may call the native API.

use vstd::prelude::*;
use vstd::string::StringExecFns;
use crate::address::{Address, AddressView};
use crate::config::{resolved, Args, LaunchConfig, LaunchConfigView};
use crate::origin::{allows, effective_host, host_or_empty, host_text, OriginMatcher};

verus! {

/// The label that the windowing host knows the window by.
pub const WINDOW_LABEL: &'static str = "main";

/// The title of the window.
pub const WINDOW_TITLE: &'static str = "Tauri App";

/// The width, in whole logical pixels, of a window whose width was not given.
pub const STOCK_WIDTH: u32 = 800;

/// The height, in whole logical pixels, of a window whose height was not given.
pub const STOCK_HEIGHT: u32 = 600;

/// One side of the window.
#[derive(Clone, Copy, Debug, PartialEq)]
pub enum Extent<D> {
    /// The length that was asked for.
    Requested(D),
    /// A stock length, in whole logical pixels.
    Stock(u32),
}

/// The size a window is opened with.
#[derive(Clone, Copy, Debug, PartialEq)]
pub struct WindowSize<D> {
    /// Its width.
    pub width: Extent<D>,
    /// Its height.
    pub height: Extent<D>,
}

/// The size to open with. Where both sides were left out the host picks
/// the size; where one was, the other gets its stock length.
pub open spec fn opening_size<D>(width: Option<D>, height: Option<D>) -> Option<WindowSize<D>> {
    match (width, height) {
        (Some(w), Some(h)) => Some(
            WindowSize { width: Extent::Requested(w), height: Extent::Requested(h) },
        ),
        (Some(w), None) => Some(
            WindowSize { width: Extent::Requested(w), height: Extent::Stock(STOCK_HEIGHT) },
        ),
        (None, Some(h)) => Some(
            WindowSize { width: Extent::Stock(STOCK_WIDTH), height: Extent::Requested(h) },
        ),
        (None, None) => None,
    }
}

/// Computes [`opening_size`].
pub fn initial_size<D>(width: Option<D>, height: Option<D>) -> (size: Option<WindowSize<D>>)
    ensures
        size == opening_size(width, height),
{
    match width {
        Some(w) => match height {
            Some(h) => Some(WindowSize { width: Extent::Requested(w), height: Extent::Requested(h) }),
            None => Some(
                WindowSize { width: Extent::Requested(w), height: Extent::Stock(STOCK_HEIGHT) },
            ),
        },
        None => match height {
            Some(h) => Some(
                WindowSize { width: Extent::Stock(STOCK_WIDTH), height: Extent::Requested(h) },
            ),
            None => None,
        },
    }
}

/// What the shell answers to a request to navigate.
#[derive(Clone, Debug, PartialEq, Eq)]
pub enum Navigation {
    /// The window may go to the page.
    Follow,
    /// The window stays where it is.
    Cancel {
        /// What to put in the log.
        diagnostic: String,
    },
}

/// The log line for a cancelled navigation to `target`.
pub open spec fn blocked_notice(target: Seq<char>) -> Seq<char> {
    "Blocked navigation to: "@ + target
}

/// The error that a page on `host` gets when it may not call the native API.
pub open spec fn denial(host: Seq<char>) -> Seq<char> {
    "API access denied for domain: "@ + host
}

/// What `greet` answers to `name`.
pub open spec fn greeting(name: Seq<char>) -> Seq<char> {
    "Hello, "@ + name + "! You've been greeted from Rust!"@
}

/// The mathematical content of a [`Shell`].
pub struct ShellView<D> {
    /// The page that the window opens on.
    pub start: AddressView,
    /// The size it opens with; `None` leaves the size to the host.
    pub size: Option<WindowSize<D>>,
    /// Whether it opens in fullscreen mode.
    pub fullscreen: bool,
    /// Whether it can be resized.
    pub resizable: bool,
    /// Whether it has decorations.
    pub decorations: bool,
    /// Whether it is minimized once it is built.
    pub minimized: bool,
    /// The suffixes that navigation is held to, if it is held to any.
    pub navigation: Option<Set<Seq<char>>>,
    /// The suffixes that native calls are held to, if they are held to any.
    pub api: Option<Set<Seq<char>>>,
}

/// The shell that a configuration asks for.
pub open spec fn shell_for<D>(config: LaunchConfigView<D>) -> ShellView<D> {
    ShellView {
        start: config.target_url,
        size: opening_size(config.width, config.height),
        fullscreen: config.fullscreen,
        resizable: config.resizable,
        decorations: config.has_frame,
        minimized: config.minimized,
        navigation: config.allowed_navigation_domains,
        api: config.allowed_api_domains,
    }
}

/// One window's worth of decisions: what to ask the windowing host for,
/// and what to answer when it asks back. Nothing in it changes once it
/// is made: no method takes it mutably.
#[derive(Clone, Debug, PartialEq)]
pub struct Shell<D> {
    start: Address,
    size: Option<WindowSize<D>>,
    fullscreen: bool,
    resizable: bool,
    decorations: bool,
    minimized: bool,
    navigation: OriginMatcher,
    api: OriginMatcher,
}

impl<D> View for Shell<D> {
    type V = ShellView<D>;

    closed spec fn view(&self) -> ShellView<D> {
        ShellView {
            start: self.start@,
            size: self.size,
            fullscreen: self.fullscreen,
            resizable: self.resizable,
            decorations: self.decorations,
            minimized: self.minimized,
            navigation: self.navigation@,
            api: self.api@,
        }
    }
}

/// The page that a window shows, as far as the shell can tell: the window
/// starts on the shell's start page and moves where a followed request
/// takes it.
#[derive(Clone, Debug, PartialEq, Eq)]
pub struct Window {
    location: Address,
}

impl View for Window {
    type V = AddressView;

    closed spec fn view(&self) -> AddressView {
        self.location@
    }
}

impl Window {
    /// The page it shows.
    pub fn location(&self) -> (location: &Address)
        ensures
            location@ == self@,
    {
        &self.location
    }
}

/// Says what `greet` answers to `name`.
pub fn greet_text(name: &str) -> (text: String)
    ensures
        text@ == greeting(name@),
{
    let mut text = String::from_str("Hello, ");
    text.append(name);
    text.append("! You've been greeted from Rust!");
    text
}

impl<D> Shell<D> {
    /// The page that the window opens on.
    pub fn start(&self) -> (start: &Address)
        ensures
            start@ == self@.start,
    {
        &self.start
    }

    /// The size that the window opens with; `None` leaves it to the host.
    pub fn size(&self) -> (size: Option<&WindowSize<D>>)
        ensures
            self@.size == match size {
                Some(size) => Some(*size),
                None => None,
            },
    {
        self.size.as_ref()
    }

    /// Whether the window opens in fullscreen mode.
    pub fn fullscreen(&self) -> (fullscreen: bool)
        ensures
            fullscreen == self@.fullscreen,
    {
        self.fullscreen
    }

    /// Whether the window can be resized.
    pub fn resizable(&self) -> (resizable: bool)
        ensures
            resizable == self@.resizable,
    {
        self.resizable
    }

    /// Whether the window has decorations.
    pub fn decorations(&self) -> (decorations: bool)
        ensures
            decorations == self@.decorations,
    {
        self.decorations
    }

    /// Whether the window is minimized once it is built.
    pub fn minimized(&self) -> (minimized: bool)
        ensures
            minimized == self@.minimized,
    {
        self.minimized
    }

    /// Whether requests to navigate are held to a list. Where they are
    /// not, every request is followed.
    pub fn filters_navigation(&self) -> (filtered: bool)
        ensures
            filtered == self@.navigation.is_some(),
    {
        self.navigation.is_restricted()
    }

    /// Whether a native call is decided by where the page is. Where it is
    /// not, every call is admitted and the caller need not find out where
    /// the page is.
    pub fn reads_origin(&self) -> (needed: bool)
        ensures
            needed == self@.api.is_some(),
    {
        self.api.is_restricted()
    }

    /// Decides a request to navigate to the page `target`, whose host part
    /// is `host`. The request is followed exactly when the navigation
    /// list allows the host, a page without a host counting as the empty
    /// host.
    pub fn on_navigation(&self, target: &str, host: Option<&str>) -> (verdict: Navigation)
        ensures
            verdict is Follow <==> allows(self@.navigation, host_text(host)),
            verdict matches Navigation::Cancel { diagnostic } ==> diagnostic@ == blocked_notice(
                target@,
            ),
    {
        if self.navigation.is_allowed(effective_host(host)) {
            Navigation::Follow
        } else {
            let mut diagnostic = String::from_str("Blocked navigation to: ");
            diagnostic.append(target);
            Navigation::Cancel { diagnostic }
        }
    }

    /// Admits or refuses a native call from a page whose host part is
    /// `host`. The call is admitted exactly when the API list allows the
    /// host; a refusal names the host.
    pub fn authorize(&self, host: Option<&str>) -> (pass: Result<(), String>)
        ensures
            pass is Ok <==> allows(self@.api, host_text(host)),
            pass matches Err(error) ==> error@ == denial(host_text(host)),
    {
        let host = effective_host(host);
        if self.api.is_allowed(host) {
            Ok(())
        } else {
            let mut error = String::from_str("API access denied for domain: ");
            error.append(host);
            Err(error)
        }
    }

    /// The native call `greet`, made by a page whose host part is `host`.
    /// A page that the API list does not allow gets the refusal and no
    /// greeting is made; any other page gets the greeting.
    pub fn greet(&self, name: &str, host: Option<&str>) -> (reply: Result<String, String>)
        ensures
            reply is Ok <==> allows(self@.api, host_text(host)),
            reply matches Ok(text) ==> text@ == greeting(name@),
            reply matches Err(error) ==> error@ == denial(host_text(host)),
            self@.api is None ==> reply is Ok,
    {
        match self.authorize(host) {
            Ok(()) => Ok(greet_text(name)),
            Err(error) => Err(error),
        }
    }

    /// The window as it is right after it was built: on the start page.
    pub fn open(&self) -> (window: Window)
        ensures
            window@ == self@.start,
    {
        Window { location: self.start.clone() }
    }

    /// Puts a request to navigate to `target` to the window. A followed
    /// request moves the window to `target`. A cancelled one leaves the
    /// window on the page it was on.
    pub fn navigate(&self, window: &mut Window, target: Address) -> (verdict: Navigation)
        ensures
            verdict is Follow <==> allows(self@.navigation, host_or_empty(target@.host)),
            verdict matches Navigation::Cancel { diagnostic } ==> diagnostic@ == blocked_notice(
                target@.text,
            ),
            final(window)@ == if verdict is Follow {
                target@
            } else {
                old(window)@
            },
            !allows(self@.navigation, host_or_empty(target@.host)) ==> final(window)@ == old(
                window,
            )@,
    {
        let verdict = self.on_navigation(target.as_str(), target.host());
        match &verdict {
            Navigation::Follow => {
                window.location = target;
            },
            Navigation::Cancel { .. } => {},
        }
        verdict
    }

    /// The native call `greet`, made by the page that the window shows.
    pub fn greet_from(&self, window: &Window, name: &str) -> (reply: Result<String, String>)
        ensures
            reply is Ok <==> allows(self@.api, host_or_empty(window@.host)),
            reply matches Ok(text) ==> text@ == greeting(name@),
            reply matches Err(error) ==> error@ == denial(host_or_empty(window@.host)),
            !allows(self@.api, host_or_empty(window@.host)) ==> reply is Err,
    {
        self.greet(name, window.location.host())
    }
}

/// Makes the shell for a configuration: the window opens on the target
/// page, a side that was left out gets its stock length, and each
/// allow-list goes into the matcher that answers for it.
pub fn run_app<D>(config: LaunchConfig<D>) -> (shell: Shell<D>)
    ensures
        shell@ == shell_for(config@),
{
    Shell {
        start: config.target_url,
        size: initial_size(config.width, config.height),
        fullscreen: config.fullscreen,
        resizable: config.resizable,
        decorations: config.has_frame,
        minimized: config.minimized,
        navigation: OriginMatcher::new(config.allowed_navigation_domains),
        api: OriginMatcher::new(config.allowed_api_domains),
    }
}

/// Resolves the arguments of an invocation and makes the shell for them.
pub fn run<D>(args: Args<D>) -> (shell: Shell<D>)
    ensures
        shell@ == shell_for(resolved(args)),
{
    run_app(LaunchConfig::from_args(args))
}

} // verus!
