//! The fixed addresses and element identifiers of the automated page, and the
//! two timing and buffering constants of the watch loop.

use vstd::prelude::*;

verus! {

/// Remote-debugging endpoint of the browser the automation attaches to.
pub const DEBUGGER_ADDRESS: &'static str = "localhost:9222";

/// Base URL of the WebDriver server that opens the session.
pub const WEBDRIVER_SERVER: &'static str = "http://localhost:9515";

/// Page that holds the form.
pub const TARGET_PAGE: &'static str = "http://localhost:8082";

/// `id` of the input control that receives the file's contents.
pub const INPUT_ID: &'static str = "peerAddress";

/// `id` of the button that submits the form.
pub const BUTTON_ID: &'static str = "runDemo";

/// Pause between a change notification and the read of the file, in
/// milliseconds, so that a writer has time to finish.
pub const SETTLE_MILLIS: u64 = 100;

/// Number of change signals that may wait for the consumer. With one slot, a
/// burst of notifications collapses into a single pending signal.
pub const SIGNAL_CAPACITY: usize = 1;

} // verus!
