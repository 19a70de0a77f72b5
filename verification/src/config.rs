//! The launch configuration and how it is resolved from the arguments.

use vstd::prelude::*;
use crate::address::{local_start, optional_address, optional_text, parsed_url, Address, AddressView};
use crate::origin::suffix_set;

verus! {

/// The arguments of one invocation, as the command line gave them.
///
/// `D` is the type of a window dimension in logical pixels. The library
/// hands dimensions on and never computes with them.
#[derive(Clone, Debug, PartialEq)]
pub struct Args<D> {
    /// The URL to load.
    pub url: Option<String>,
    /// The window's width.
    pub width: Option<D>,
    /// The window's height.
    pub height: Option<D>,
    /// Start in fullscreen mode.
    pub fullscreen: bool,
    /// Start minimized.
    pub minimized: bool,
    /// The domains that the window may navigate to.
    pub allowed_domains: Option<Vec<String>>,
    /// The domains whose pages may call the native API.
    pub api_domains: Option<Vec<String>>,
    /// Keep the window from being resized.
    pub no_resizable: bool,
    /// Leave out the window's frame.
    pub frameless: bool,
}

/// The mathematical content of a [`LaunchConfig`].
pub struct LaunchConfigView<D> {
    /// The page to load.
    pub target_url: AddressView,
    /// The width asked for.
    pub width: Option<D>,
    /// The height asked for.
    pub height: Option<D>,
    /// Whether the window starts in fullscreen mode.
    pub fullscreen: bool,
    /// Whether the window starts minimized.
    pub minimized: bool,
    /// Whether the window can be resized.
    pub resizable: bool,
    /// Whether the window has a frame.
    pub has_frame: bool,
    /// The suffixes that navigation is held to, if it is held to any.
    pub allowed_navigation_domains: Option<Set<Seq<char>>>,
    /// The suffixes that native calls are held to, if they are held to any.
    pub allowed_api_domains: Option<Set<Seq<char>>>,
}

/// Everything that is settled before the window opens. It is made once,
/// from the arguments, and handed over whole to the shell, which keeps it
/// out of reach for as long as the window lives.
#[derive(Clone, Debug, PartialEq)]
pub struct LaunchConfig<D> {
    /// The page to load.
    pub target_url: Address,
    /// The width asked for.
    pub width: Option<D>,
    /// The height asked for.
    pub height: Option<D>,
    /// Whether the window starts in fullscreen mode.
    pub fullscreen: bool,
    /// Whether the window starts minimized.
    pub minimized: bool,
    /// Whether the window can be resized.
    pub resizable: bool,
    /// Whether the window has a frame.
    pub has_frame: bool,
    /// The suffixes that navigation is held to, if it is held to any.
    pub allowed_navigation_domains: Option<Vec<String>>,
    /// The suffixes that native calls are held to, if they are held to any.
    pub allowed_api_domains: Option<Vec<String>>,
}

/// The page to load for a requested URL: the URL as parsed, and the local
/// start page where none was requested or the request does not parse.
pub open spec fn start_page(requested: Option<Seq<char>>) -> AddressView {
    match requested {
        Some(text) => start_or_local(parsed_url(text)),
        None => local_start(),
    }
}

/// A parsed address, or the local start page in place of a missing one.
pub open spec fn start_or_local(parsed: Option<AddressView>) -> AddressView {
    match parsed {
        Some(address) => address,
        None => local_start(),
    }
}

/// The configuration that `args` resolve to.
pub open spec fn resolved<D>(args: Args<D>) -> LaunchConfigView<D> {
    LaunchConfigView {
        target_url: start_page(optional_text(args.url)),
        width: args.width,
        height: args.height,
        fullscreen: args.fullscreen,
        minimized: args.minimized,
        resizable: !args.no_resizable,
        has_frame: !args.frameless,
        allowed_navigation_domains: suffix_set(args.allowed_domains),
        allowed_api_domains: suffix_set(args.api_domains),
    }
}

/// The page to load, given what parsing the requested URL gave: the parsed
/// address where there is one, the local start page where there is none.
pub fn start_address(parsed: Option<Address>) -> (start: Address)
    ensures
        start@ == start_or_local(optional_address(parsed)),
{
    match parsed {
        Some(address) => address,
        None => Address::local(),
    }
}

impl<D> View for LaunchConfig<D> {
    type V = LaunchConfigView<D>;

    open spec fn view(&self) -> LaunchConfigView<D> {
        LaunchConfigView {
            target_url: self.target_url@,
            width: self.width,
            height: self.height,
            fullscreen: self.fullscreen,
            minimized: self.minimized,
            resizable: self.resizable,
            has_frame: self.has_frame,
            allowed_navigation_domains: suffix_set(self.allowed_navigation_domains),
            allowed_api_domains: suffix_set(self.allowed_api_domains),
        }
    }
}

impl<D> LaunchConfig<D> {
    /// Resolves the arguments. A URL that is missing or does not parse
    /// gives way to the local start page; the two negative switches become
    /// positive properties; everything else is taken as it is.
    pub fn from_args(args: Args<D>) -> (config: Self)
        ensures
            config@ == resolved(args),
            config.allowed_navigation_domains == args.allowed_domains,
            config.allowed_api_domains == args.api_domains,
    {
        let target_url = match &args.url {
            Some(text) => start_address(Address::parse(text.as_str())),
            None => Address::local(),
        };
        LaunchConfig {
            target_url,
            width: args.width,
            height: args.height,
            fullscreen: args.fullscreen,
            minimized: args.minimized,
            resizable: !args.no_resizable,
            has_frame: !args.frameless,
            allowed_navigation_domains: args.allowed_domains,
            allowed_api_domains: args.api_domains,
        }
    }
}

} // verus!
