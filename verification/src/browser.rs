//! Browser capabilities that attach a WebDriver session to a browser that is
//! already running.
//!
//! The capability set is a value of the `thirtyfour` crate and is built by
//! that crate. It is a keyed store of options; this module reads it as the map
//! of its text-valued browser options and states what the two calls that build
//! it do to that map.

use vstd::prelude::*;

verus! {

/// `thirtyfour::ChromeCapabilities`, the capability set of a Chrome session.
/// Nothing inside it is visible here.
#[verifier::external_type_specification]
#[verifier::external_body]
pub struct ExChromeCapabilities(thirtyfour::ChromeCapabilities);

/// `thirtyfour::error::WebDriverError`, the error of every fallible call of
/// that crate. Nothing inside it is visible here.
#[verifier::external_type_specification]
#[verifier::external_body]
pub struct ExWebDriverError(thirtyfour::error::WebDriverError);

/// The text-valued browser options that a capability set holds: each key of
/// the set's Chrome option object whose value is a string, with that string.
/// A key is in the map exactly when
/// `BrowserCapabilitiesHelper::browser_option::<String>` gives `Some` for it,
/// and the map holds what that call gives.
pub uninterp spec fn browser_options(capabilities: thirtyfour::ChromeCapabilities) -> Map<Seq<char>, Seq<char>>;

/// No browser option at all.
pub open spec fn no_options() -> Map<Seq<char>, Seq<char>> {
    Map::empty()
}

/// Calls `thirtyfour::DesiredCapabilities::chrome`, which makes a capability
/// set that names the browser and has no Chrome option object yet. Claimed
/// without proof: the new set holds no browser option.
#[verifier::external_body]
fn chrome_capabilities() -> (capabilities: thirtyfour::ChromeCapabilities)
    ensures
        browser_options(capabilities) == no_options(),
{
    thirtyfour::DesiredCapabilities::chrome()
}

/// Calls `ChromiumLikeCapabilities::set_debugger_address` of `thirtyfour`,
/// which stores `address` as a string under the key `debuggerAddress` of the
/// Chrome option object and leaves the other keys as they are. The call can
/// fail only where a value does not convert into JSON, and what it converts is
/// the address, a string, and an object with that one string entry: `serde_json`
/// converts both without fail. Claimed without proof: the call returns `Ok`
/// for every address, and the options are then those from before with
/// `debuggerAddress` set to `address`.
#[verifier::external_body]
fn set_debugger_address(
    capabilities: &mut thirtyfour::ChromeCapabilities,
    address: &str,
) -> (outcome: Result<(), thirtyfour::error::WebDriverError>)
    ensures
        outcome is Ok,
        browser_options(*final(capabilities)) == browser_options(*old(capabilities)).insert(
            "debuggerAddress"@,
            address@,
        ),
{
    thirtyfour::ChromiumLikeCapabilities::set_debugger_address(capabilities, address)
}

/// Calls `to_string` on a `thirtyfour::error::WebDriverError`, which renders
/// the error as the crate displays it. Nothing is claimed of the text.
#[verifier::external_body]
fn failure_text(error: &thirtyfour::error::WebDriverError) -> (text: String) {
    error.to_string()
}

/// The browser options of capabilities that do nothing but attach to the
/// browser whose remote debugger listens at `debugger`.
pub open spec fn attached_to(debugger: Seq<char>) -> Map<Seq<char>, Seq<char>> {
    no_options().insert("debuggerAddress"@, debugger)
}

/// Carries out the attach command of a run: builds capabilities for Chrome and
/// points them at the browser whose remote debugger listens at `debugger`.
///
/// It succeeds for every address, and the capabilities it gives hold that
/// debugger address and no other browser option. The result is a `Result`
/// because the outside call's is; [`attachment`] says what would come back for
/// each way that call could end.
pub fn attach(debugger: &str) -> (outcome: Result<thirtyfour::ChromeCapabilities, String>)
    ensures
        outcome matches Ok(capabilities) && browser_options(capabilities) == attached_to(
            debugger@,
        ),
{
    let mut capabilities = chrome_capabilities();
    let set = set_debugger_address(&mut capabilities, debugger);
    attachment(capabilities, set)
}

/// What an attempt to attach comes to once the outside call has returned:
/// the capabilities, as the call left them, if it set the address, and the
/// text of its error if it did not.
pub fn attachment(
    capabilities: thirtyfour::ChromeCapabilities,
    set: Result<(), thirtyfour::error::WebDriverError>,
) -> (outcome: Result<thirtyfour::ChromeCapabilities, String>)
    ensures
        set is Ok ==> (outcome matches Ok(kept) && kept == capabilities),
        set is Err ==> outcome is Err,
{
    match set {
        Ok(()) => Ok(capabilities),
        Err(error) => Err(failure_text(&error)),
    }
}

} // verus!
