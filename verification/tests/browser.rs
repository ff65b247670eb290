use backend_supervisor::browser::{BrowserOpener, OpenAction, OPEN_PROGRAM};

fn chrome_args(url: &str) -> OpenAction {
    OpenAction::Run(vec!["-a".to_string(), "Google Chrome".to_string(), url.to_string()])
}

#[test]
fn open_command_is_fixed() {
    assert_eq!(OPEN_PROGRAM, "open");
}

#[test]
fn chrome_is_tried_first() {
    let opener = BrowserOpener::new("https://example.org/jobs");
    assert_eq!(opener.action(), chrome_args("https://example.org/jobs"));
    let opener = opener.step(Ok(true));
    assert_eq!(opener.action(), OpenAction::Done(Ok(())));
}

#[test]
fn default_browser_follows_chrome_refusal() {
    let opener = BrowserOpener::new("https://example.org").step(Ok(false));
    assert_eq!(opener.action(), OpenAction::Run(vec!["https://example.org".to_string()]));
    assert_eq!(opener.step(Ok(true)).action(), OpenAction::Done(Ok(())));
}

#[test]
fn both_refusals_are_an_error() {
    let opener = BrowserOpener::new("https://example.org").step(Ok(false)).step(Ok(false));
    assert_eq!(
        opener.action(),
        OpenAction::Done(Err("Could not open URL in Chrome or fallback browser".to_string()))
    );
}

#[test]
fn run_that_cannot_be_made_ends_the_work() {
    let opener = BrowserOpener::new("u").step(Err("No such file or directory".to_string()));
    assert_eq!(
        opener.action(),
        OpenAction::Done(Err(
            "Failed to execute 'open -a Google Chrome': No such file or directory".to_string()
        ))
    );
    let opener = BrowserOpener::new("u").step(Ok(false)).step(Err("denied".to_string()));
    assert_eq!(
        opener.action(),
        OpenAction::Done(Err("Failed to open URL with default browser: denied".to_string()))
    );
}

#[test]
fn finished_opener_stays_finished() {
    let opener = BrowserOpener::new("u").step(Ok(true)).step(Ok(false)).step(Err("x".to_string()));
    assert_eq!(opener, BrowserOpener::Done(Ok(())));
    let failed = BrowserOpener::new("u").step(Ok(false)).step(Ok(false)).step(Ok(true));
    assert_eq!(
        failed,
        BrowserOpener::Done(Err("Could not open URL in Chrome or fallback browser".to_string()))
    );
}
