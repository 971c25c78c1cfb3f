use paste_watch::automation::{Automation, Command};
use paste_watch::browser::{attach, attachment};
use thirtyfour::error::WebDriverError;
use thirtyfour::{BrowserCapabilitiesHelper, ChromiumLikeCapabilities, DesiredCapabilities};

#[test]
fn attach_points_at_the_given_debugger() {
    let capabilities = attach("localhost:9222").expect("capabilities");
    assert_eq!(capabilities.debugger_address(), Some("localhost:9222".to_string()));
}

#[test]
fn attach_keeps_the_address_as_given() {
    let capabilities = attach("127.0.0.1:4444").expect("capabilities");
    assert_eq!(capabilities.debugger_address(), Some("127.0.0.1:4444".to_string()));
}

#[test]
fn attach_builds_chrome_capabilities() {
    let capabilities = attach("localhost:9222").expect("capabilities");
    let name = capabilities.as_ref().get("browserName").and_then(|value| value.as_str());
    assert_eq!(name, Some("chrome"));
}

#[test]
fn attach_command_leads_to_the_fixed_debugger() {
    let command = Automation::new("text").command();
    let debugger = match command {
        Command::Attach { debugger } => debugger,
        other => panic!("first command is {:?}", other),
    };
    let capabilities = attach(&debugger).expect("capabilities");
    assert_eq!(capabilities.debugger_address(), Some("localhost:9222".to_string()));
}

#[test]
fn attach_sets_no_other_browser_option() {
    let capabilities = attach("localhost:9222").expect("capabilities");
    assert_eq!(capabilities.binary(), None);
    assert!(capabilities.args().is_empty());
    assert!(capabilities.extensions().is_empty());
}

#[test]
fn attachment_hands_the_capabilities_on_when_the_address_was_set() {
    let mut capabilities = DesiredCapabilities::chrome();
    capabilities.set_debugger_address("localhost:9222").expect("address");
    capabilities.set_binary("/opt/chrome").expect("binary");
    let kept = attachment(capabilities, Ok(())).expect("capabilities");
    assert_eq!(kept.debugger_address(), Some("localhost:9222".to_string()));
    assert_eq!(kept.binary(), Some("/opt/chrome".to_string()));
}

#[test]
fn attachment_gives_the_error_text_when_the_address_was_not_set() {
    let capabilities = DesiredCapabilities::chrome();
    let error = WebDriverError::Json("unexpected end of input".to_string());
    let expected = error.to_string();
    let outcome = attachment(capabilities, Err(error));
    assert_eq!(outcome.err(), Some(expected));
}

#[test]
fn attachment_error_text_names_the_cause() {
    let capabilities = DesiredCapabilities::chrome();
    let error = WebDriverError::Json("unexpected end of input".to_string());
    let text = attachment(capabilities, Err(error)).err().expect("text");
    assert!(text.contains("unexpected end of input"));
}

#[test]
fn attach_succeeds_for_any_address() {
    for address in ["", "localhost:9222", "[::1]:9222", "  spaced  ", "h\u{f6}st:1", "a\"b\\c\n"] {
        let capabilities = attach(address).expect("capabilities");
        assert_eq!(capabilities.debugger_address(), Some(address.to_string()));
    }
}
