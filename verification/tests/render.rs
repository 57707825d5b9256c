use std::error::Error;
use std::fmt;
use std::fmt::Display;
use user_error::{UserFacingError, HELPTEXT_PREFIX, REASON_PREFIX, RESET, SUMMARY_PREFIX};

/* Statics to keep the testing DRY/cleaner */
const S: &str = "Test Error";
const R: &str = "Reason 1";
const H: &str = "Try Again";

/* Builds the message a foreign error converts to: display text as summary,
 * the display texts of its causal chain as reasons. */
fn ufe_from_error(e: &dyn Error) -> UserFacingError {
    let mut sources: Vec<String> = Vec::new();
    let mut src = e.source();
    while let Some(cause) = src {
        sources.push(cause.to_string());
        src = cause.source();
    }
    UserFacingError::from_error_parts(&e.to_string(), &sources)
}

fn de(ioe: std::io::Error) -> Box<dyn Error> {
    Box::new(ioe)
}

#[test]
fn new_test() {
    println!("{}", UserFacingError::new("Test Error").to_string());
}

#[test]
fn summary_test() {
    let e = UserFacingError::new(S);
    let expected = [SUMMARY_PREFIX, S, RESET, "\n"].concat();
    assert_eq!(e.to_string(), String::from(expected));
    println!("{}", e.to_string());
}

#[test]
fn helptext_test() {
    let e = UserFacingError::new(S).help(H);
    let expected = format!(
        "{}{}{}\n{}{}{}\n",
        SUMMARY_PREFIX, S, RESET, HELPTEXT_PREFIX, H, RESET
    );
    assert_eq!(e.to_string(), expected);
    println!("{}", e.to_string());
}

#[test]
fn reason_test() {
    let e = UserFacingError::new(S).reason(R).reason(R);

    /* Create Reasons String */
    let reasons = vec![String::from(R), String::from(R)];
    let mut reason_strings = Vec::with_capacity(reasons.len());
    for reason in reasons {
        let bullet_point = [REASON_PREFIX, &reason].concat();
        reason_strings.push(bullet_point);
    }
    /* Join the bullet points with a newline, append a RESET escape code to the end */
    let reasons = [&reason_strings.join("\n"), RESET].concat();

    let expected = format!("{}{}{}\n{}\n", SUMMARY_PREFIX, S, RESET, reasons);
    assert_eq!(e.to_string(), expected);
    println!("{}", e.to_string());
}

#[test]
fn push_test() {
    let mut e = UserFacingError::new(S).reason("R1");
    e.push("R2");

    /* Create Reasons String */
    let reasons = vec![String::from(S), String::from("R1")];
    let mut reason_strings = Vec::with_capacity(reasons.len());
    for reason in reasons {
        let bullet_point = [REASON_PREFIX, &reason].concat();
        reason_strings.push(bullet_point);
    }
    /* Join the bullet points with a newline, append a RESET escape code to the end */
    let reasons = [&reason_strings.join("\n"), RESET].concat();

    let expected = format!("{}{}{}\n{}\n", SUMMARY_PREFIX, "R2", RESET, reasons);
    assert_eq!(e.to_string(), expected);
    println!("{}", e.to_string());
}

#[test]
fn push_test_empty() {
    let mut e = UserFacingError::new(S);
    e.push("S2");

    /* Create Reasons String */
    let reasons = vec![String::from(S)];
    let mut reason_strings = Vec::with_capacity(reasons.len());
    for reason in reasons {
        let bullet_point = [REASON_PREFIX, &reason].concat();
        reason_strings.push(bullet_point);
    }
    /* Join the bullet points with a newline, append a RESET escape code to the end */
    let reasons = [&reason_strings.join("\n"), RESET].concat();

    let expected = format!("{}{}{}\n{}\n", SUMMARY_PREFIX, "S2", RESET, reasons);
    assert_eq!(e.to_string(), expected);
    println!("{}", e.to_string());
}

#[test]
fn reason_and_helptext_test() {
    let e = UserFacingError::new(S).reason(R).reason(R).help(H);

    /* Create Reasons String */
    let reasons = vec![String::from(R), String::from(R)];
    let mut reason_strings = Vec::with_capacity(reasons.len());
    for reason in reasons {
        let bullet_point = [REASON_PREFIX, &reason].concat();
        reason_strings.push(bullet_point);
    }
    /* Join the bullet points with a newline, append a RESET escape code to the end */
    let reasons = [&reason_strings.join("\n"), RESET].concat();

    let expected = format!(
        "{}{}{}\n{}\n{}{}{}\n",
        SUMMARY_PREFIX, S, RESET, reasons, HELPTEXT_PREFIX, H, RESET
    );
    assert_eq!(e.to_string(), expected);
    println!("{}", e.to_string());
}

#[test]
fn from_error_test() {
    let error_text = "Error";
    let ioe = std::io::Error::new(std::io::ErrorKind::Other, error_text);

    /* Convert to UFE */
    let boxed = de(ioe);
    let ufe: UserFacingError = ufe_from_error(boxed.as_ref());

    let expected = [SUMMARY_PREFIX, error_text, RESET, "\n"].concat();
    assert_eq!(ufe.to_string(), expected);
}

#[test]
fn from_error_source_test() {
    let source = get_super_error().unwrap_err();
    let ufe: UserFacingError = ufe_from_error(source.as_ref());
    let expected = [
        SUMMARY_PREFIX,
        "SuperError",
        RESET,
        "\n",
        REASON_PREFIX,
        "Sidekick",
        RESET,
        "\n",
    ]
    .concat();

    assert_eq!(ufe.to_string(), expected);
}

/* Used to test that source is working correctly */
#[derive(Debug)]
struct SuperError {
    side: SuperErrorSideKick,
}

impl Display for SuperError {
    fn fmt(&self, f: &mut fmt::Formatter<'_>) -> fmt::Result {
        f.write_str("SuperError")
    }
}

impl Error for SuperError {
    fn source(&self) -> Option<&(dyn Error + 'static)> {
        Some(&self.side)
    }
}

#[derive(Debug)]
struct SuperErrorSideKick;

impl Display for SuperErrorSideKick {
    fn fmt(&self, f: &mut fmt::Formatter<'_>) -> fmt::Result {
        f.write_str("Sidekick")
    }
}

impl Error for SuperErrorSideKick {
    fn source(&self) -> Option<&(dyn Error + 'static)> {
        None
    }
}

fn get_super_error() -> Result<(), Box<dyn Error>> {
    Err(Box::new(SuperError {
        side: SuperErrorSideKick,
    }))
}
